//! The HTTP API: validation of request bodies, and the answer to each outcome
//! of the store and token steps behind a request.
use vstd::prelude::*;
use crate::auth::Token;
use crate::text::{occurs_in, text_contains};

verus! {

/// Why a request is refused.
#[derive(Debug, PartialEq, Eq)]
pub enum ApiError {
    /// 400: a required field is empty or out of range.
    BadRequest,
    /// 401 with no message.
    Unauthorized,
    /// 401 with a message.
    UnauthorizedWithMessage(String),
    /// 409: the e-mail address is taken.
    Conflict,
    /// 500 with no message.
    Internal,
    /// 500 with a message.
    InternalWithMessage(String),
    /// 500: the session token could not be made; the body says so.
    TokenCreationFailed,
}

impl ApiError {
    /// The HTTP status of the refusal.
    pub fn status_code(&self) -> (code: u16)
        ensures
            code == match self {
                ApiError::BadRequest => 400u16,
                ApiError::Unauthorized | ApiError::UnauthorizedWithMessage(_) => 401u16,
                ApiError::Conflict => 409u16,
                _ => 500u16,
            },
    {
        match self {
            ApiError::BadRequest => 400,
            ApiError::Unauthorized | ApiError::UnauthorizedWithMessage(_) => 401,
            ApiError::Conflict => 409,
            ApiError::Internal | ApiError::InternalWithMessage(_) | ApiError::TokenCreationFailed => 500,
        }
    }
}

/// Body of a sign-up request.
pub struct CreateUserInput {
    pub username: String,
    pub email: String,
    pub password: String,
}

/// Answer to a sign-up or sign-in: the session token and a message.
#[derive(Debug, PartialEq, Eq)]
pub struct CreateUserOuptput {
    pub success: bool,
    pub jwt: String,
    pub message: String,
}

/// Body of a sign-in request.
pub struct SignInput {
    pub email: String,
    pub password: String,
}

/// Body of a request to monitor a website.
pub struct WebsiteInput {
    pub url: String,
    pub name: String,
    pub check_interval: i32,
}

/// Answer to a request to monitor a website.
#[derive(Debug, PartialEq, Eq)]
pub struct WebsiteOutput {
    pub success: bool,
    pub message: String,
}

/// A website as stored: id, url and check interval.
pub struct Output {
    pub id: String,
    pub url: String,
    pub check_interval: Option<i32>,
}

/// A failure of the database behind a request: the message of the database
/// itself when there is one, and a description of the failure.
pub struct DbFailure {
    pub database_message: Option<String>,
    pub description: String,
}

fn is_blank(text: &String) -> (blank: bool)
    ensures blank == (text@.len() == 0),
{
    text.as_str().is_empty()
}

impl CreateUserInput {
    /// A sign-up needs a user name, an e-mail address and a password.
    pub fn validate(&self) -> (checked: Result<(), ApiError>)
        ensures
            checked is Ok <==> (self.username@.len() > 0 && self.email@.len() > 0 && self.password@.len() > 0),
            checked is Err ==> checked == Err::<(), ApiError>(ApiError::BadRequest),
    {
        if is_blank(&self.username) || is_blank(&self.email) || is_blank(&self.password) {
            Err(ApiError::BadRequest)
        } else {
            Ok(())
        }
    }
}

impl SignInput {
    /// A sign-in needs an e-mail address and a password.
    pub fn validate(&self) -> (checked: Result<(), ApiError>)
        ensures
            checked is Ok <==> (self.email@.len() > 0 && self.password@.len() > 0),
            checked is Err ==> checked == Err::<(), ApiError>(ApiError::BadRequest),
    {
        if is_blank(&self.email) || is_blank(&self.password) {
            Err(ApiError::BadRequest)
        } else {
            Ok(())
        }
    }
}

impl WebsiteInput {
    /// A website needs a url, a name and a positive check interval.
    pub fn validate(&self) -> (checked: Result<(), ApiError>)
        ensures
            checked is Ok <==> (self.url@.len() > 0 && self.name@.len() > 0 && self.check_interval > 0),
            checked is Err ==> checked == Err::<(), ApiError>(ApiError::BadRequest),
    {
        if is_blank(&self.url) || is_blank(&self.name) || self.check_interval <= 0 {
            Err(ApiError::BadRequest)
        } else {
            Ok(())
        }
    }
}

/// The name of the database constraint on unique e-mail addresses.
pub open spec fn email_constraint() -> Seq<char> {
    "users_email_key"@
}

/// Whether a failed sign-up hit the unique e-mail constraint.
pub open spec fn is_email_taken(failure: DbFailure) -> bool {
    failure.database_message matches Some(m) && occurs_in(m@, email_constraint())
}

/// The user id of a sign-up the store accepted, or the refusal: 409 when the
/// e-mail address is taken, 500 for any other failure.
pub fn signup_stored(stored: Result<String, DbFailure>) -> (outcome: Result<String, ApiError>)
    ensures
        match stored {
            Ok(id) => outcome == Ok::<String, ApiError>(id),
            Err(f) => outcome == Err::<String, ApiError>(
                if is_email_taken(f) { ApiError::Conflict } else { ApiError::Internal }),
        },
{
    match stored {
        Ok(id) => Ok(id),
        Err(f) => {
            let taken = match &f.database_message {
                Some(m) => text_contains(m.as_str(), "users_email_key"),
                None => false,
            };
            if taken { Err(ApiError::Conflict) } else { Err(ApiError::Internal) }
        },
    }
}

/// The answer to a sign-up once its token was (`Some`) or was not made.
pub fn signup_answer(token: Option<String>) -> (answer: Result<CreateUserOuptput, ApiError>)
    ensures
        match token {
            Some(t) => answer matches Ok(out) && out.success && out.jwt == t
                && out.message@ == "User created successfully"@,
            None => answer matches Err(e) && e == ApiError::TokenCreationFailed,
        },
{
    match token {
        Some(t) => Ok(CreateUserOuptput {
            success: true,
            jwt: t,
            message: String::from_str("User created successfully"),
        }),
        None => Err(ApiError::TokenCreationFailed),
    }
}

/// The user id of a sign-in the store found, or 500 for any failure
/// (unknown credentials included).
pub fn signin_found(found: Result<String, DbFailure>) -> (outcome: Result<String, ApiError>)
    ensures
        match found {
            Ok(id) => outcome == Ok::<String, ApiError>(id),
            Err(_) => outcome == Err::<String, ApiError>(ApiError::Internal),
        },
{
    match found {
        Ok(id) => Ok(id),
        Err(_) => Err(ApiError::Internal),
    }
}

/// The answer to a sign-in once its token was (`Some`) or was not made.
pub fn signin_answer(token: Option<String>) -> (answer: Result<CreateUserOuptput, ApiError>)
    ensures
        match token {
            Some(t) => answer matches Ok(out) && out.success && out.jwt == t
                && out.message@ == "User signed in successfully"@,
            None => answer matches Err(e) && e == ApiError::Internal,
        },
{
    match token {
        Some(t) => Ok(CreateUserOuptput {
            success: true,
            jwt: t,
            message: String::from_str("User signed in successfully"),
        }),
        None => Err(ApiError::Internal),
    }
}

/// The user of a request to add a website: without a token it is unauthorized.
pub fn website_owner(token: Option<Token>) -> (owner: Result<Token, ApiError>)
    ensures
        match token {
            Some(t) => owner == Ok::<Token, ApiError>(t),
            None => owner == Err::<Token, ApiError>(ApiError::Unauthorized),
        },
{
    match token {
        Some(t) => Ok(t),
        None => Err(ApiError::Unauthorized),
    }
}

/// The user of a request to list websites: without a token it is unauthorized,
/// with a message that says so.
pub fn listing_owner(token: Option<Token>) -> (owner: Result<Token, ApiError>)
    ensures
        match token {
            Some(t) => owner == Ok::<Token, ApiError>(t),
            None => owner matches Err(ApiError::UnauthorizedWithMessage(m))
                && m@ == "Unauthorized - Token missing"@,
        },
{
    match token {
        Some(t) => Ok(t),
        None => Err(ApiError::UnauthorizedWithMessage(String::from_str("Unauthorized - Token missing"))),
    }
}

/// Rows read for a listing, or 500 with the failure's description.
pub fn listing_rows<T>(rows: Result<T, DbFailure>) -> (outcome: Result<T, ApiError>)
    ensures
        match rows {
            Ok(r) => outcome == Ok::<T, ApiError>(r),
            Err(f) => outcome == Err::<T, ApiError>(ApiError::InternalWithMessage(f.description)),
        },
{
    match rows {
        Ok(r) => Ok(r),
        Err(f) => Err(ApiError::InternalWithMessage(f.description)),
    }
}

impl Output {
    /// The interval a stored website is scheduled with: its own, or 60 seconds.
    pub fn schedule_interval(&self) -> (interval: i32)
        ensures
            interval == match self.check_interval {
                Some(i) => i,
                None => 60i32,
            },
    {
        match self.check_interval {
            Some(i) => i,
            None => 60,
        }
    }
}

/// A website to put on the check schedule.
#[derive(Debug, PartialEq, Eq)]
pub struct ScheduleRequest {
    pub id: String,
    pub url: String,
    pub interval_sec: i32,
    pub user_id: String,
}

/// After the store took a new website: what to schedule and the answer; a store
/// failure is a 500.
pub fn website_stored(stored: Result<Output, DbFailure>, owner: &Token) -> (outcome: Result<(ScheduleRequest, WebsiteOutput), ApiError>)
    ensures
        match stored {
            Ok(o) => outcome matches Ok((req, out))
                && req.id == o.id && req.url == o.url && req.user_id == owner.user_id
                && req.interval_sec == (match o.check_interval { Some(i) => i, None => 60i32 })
                && out.success && out.message@ == "website inserted successfully"@,
            Err(_) => outcome matches Err(e) && e == ApiError::Internal,
        },
{
    match stored {
        Ok(o) => {
            let interval_sec = o.schedule_interval();
            let req = ScheduleRequest { id: o.id, url: o.url, interval_sec, user_id: owner.user_id.clone() };
            let out = WebsiteOutput { success: true, message: String::from_str("website inserted successfully") };
            Ok((req, out))
        },
        Err(_) => Err(ApiError::Internal),
    }
}

} // verus!
