use betteruptime::api::{
    listing_owner, listing_rows, signin_answer, signin_found, signup_answer, signup_stored,
    website_owner, website_stored, ApiError, CreateUserInput, DbFailure, Output, SignInput, WebsiteInput,
};
use betteruptime::auth::{bearer_token, token_from_claims, Claims, Token};

fn failure(message: Option<&str>) -> DbFailure {
    DbFailure { database_message: message.map(|m| m.to_string()), description: "db failed".to_string() }
}

#[test]
fn sign_up_validation() {
    let ok = CreateUserInput { username: "a".into(), email: "a@b.c".into(), password: "p".into() };
    assert_eq!(ok.validate(), Ok(()));
    let bad = CreateUserInput { username: "".into(), email: "a@b.c".into(), password: "p".into() };
    assert_eq!(bad.validate(), Err(ApiError::BadRequest));
    let bad = CreateUserInput { username: "a".into(), email: "a@b.c".into(), password: "".into() };
    assert_eq!(bad.validate(), Err(ApiError::BadRequest));
}

#[test]
fn sign_in_validation() {
    assert_eq!(SignInput { email: "a".into(), password: "p".into() }.validate(), Ok(()));
    assert_eq!(SignInput { email: "".into(), password: "p".into() }.validate(), Err(ApiError::BadRequest));
}

#[test]
fn website_validation() {
    let w = |url: &str, name: &str, i: i32| WebsiteInput { url: url.into(), name: name.into(), check_interval: i };
    assert_eq!(w("https://a.b", "a", 30).validate(), Ok(()));
    assert_eq!(w("https://a.b", "a", 0).validate(), Err(ApiError::BadRequest));
    assert_eq!(w("https://a.b", "a", -5).validate(), Err(ApiError::BadRequest));
    assert_eq!(w("", "a", 30).validate(), Err(ApiError::BadRequest));
    assert_eq!(w("https://a.b", "", 30).validate(), Err(ApiError::BadRequest));
}

#[test]
fn sign_up_outcomes() {
    assert_eq!(signup_stored(Ok("u1".to_string())), Ok("u1".to_string()));
    assert_eq!(
        signup_stored(Err(failure(Some("duplicate key value violates unique constraint \"users_email_key\"")))),
        Err(ApiError::Conflict)
    );
    assert_eq!(signup_stored(Err(failure(Some("connection reset")))), Err(ApiError::Internal));
    assert_eq!(signup_stored(Err(failure(None))), Err(ApiError::Internal));
    let answer = signup_answer(Some("jwt".to_string())).unwrap();
    assert!(answer.success);
    assert_eq!(answer.jwt, "jwt");
    assert_eq!(answer.message, "User created successfully");
    assert_eq!(signup_answer(None).err(), Some(ApiError::TokenCreationFailed));
}

#[test]
fn sign_in_outcomes() {
    assert_eq!(signin_found(Ok("u1".to_string())), Ok("u1".to_string()));
    assert_eq!(signin_found(Err(failure(None))), Err(ApiError::Internal));
    let answer = signin_answer(Some("t".to_string())).unwrap();
    assert_eq!(answer.message, "User signed in successfully");
    assert_eq!(signin_answer(None).err(), Some(ApiError::Internal));
}

#[test]
fn status_codes_of_refusals() {
    assert_eq!(ApiError::BadRequest.status_code(), 400);
    assert_eq!(ApiError::Unauthorized.status_code(), 401);
    assert_eq!(ApiError::UnauthorizedWithMessage("x".into()).status_code(), 401);
    assert_eq!(ApiError::Conflict.status_code(), 409);
    assert_eq!(ApiError::Internal.status_code(), 500);
    assert_eq!(ApiError::InternalWithMessage("x".into()).status_code(), 500);
    assert_eq!(ApiError::TokenCreationFailed.status_code(), 500);
}

#[test]
fn website_creation_outcomes() {
    let owner = Token { user_id: "u1".to_string() };
    let (req, out) = website_stored(
        Ok(Output { id: "w1".into(), url: "https://a.b".into(), check_interval: Some(30) }),
        &owner,
    )
    .unwrap();
    assert_eq!((req.id.as_str(), req.url.as_str(), req.interval_sec, req.user_id.as_str()), ("w1", "https://a.b", 30, "u1"));
    assert!(out.success);
    assert_eq!(out.message, "website inserted successfully");
    let (req, _) = website_stored(Ok(Output { id: "w2".into(), url: "u".into(), check_interval: None }), &owner).unwrap();
    assert_eq!(req.interval_sec, 60);
    assert_eq!(website_stored(Err(failure(None)), &owner).err(), Some(ApiError::Internal));
    assert_eq!(Output { id: "w".into(), url: "u".into(), check_interval: None }.schedule_interval(), 60);
}

#[test]
fn owners_of_requests() {
    assert_eq!(website_owner(None).err(), Some(ApiError::Unauthorized));
    assert_eq!(website_owner(Some(Token { user_id: "u".into() })).unwrap().user_id, "u");
    assert_eq!(listing_owner(None).err(), Some(ApiError::UnauthorizedWithMessage("Unauthorized - Token missing".into())));
    assert_eq!(listing_rows::<Vec<u8>>(Ok(vec![1])), Ok(vec![1]));
    assert_eq!(listing_rows::<Vec<u8>>(Err(failure(None))), Err(ApiError::InternalWithMessage("db failed".into())));
}

#[test]
fn bearer_headers() {
    assert_eq!(bearer_token(None), Err(ApiError::Unauthorized));
    assert_eq!(bearer_token(Some("Basic abc")), Err(ApiError::Unauthorized));
    assert_eq!(bearer_token(Some("bearer abc")), Err(ApiError::Unauthorized));
    assert_eq!(bearer_token(Some("Bearer abc.def.ghi")), Ok("abc.def.ghi".to_string()));
    assert_eq!(bearer_token(Some("Bearer ")), Ok(String::new()));
}

#[test]
fn claims_expire_two_days_after_issue() {
    let c = Claims::issue("u1".to_string(), 1_700_000_000);
    assert_eq!(c.sub, "u1");
    assert_eq!(c.exp, 1_700_172_800);
    let token = token_from_claims(Some(c)).unwrap();
    assert_eq!(token.user_id, "u1");
    assert_eq!(token_from_claims(None).err(), Some(ApiError::Unauthorized));
}

#[test]
fn claims_can_be_issued_inside_the_calendar() {
    assert!(Claims::can_issue_at(1_700_000_000));
    assert!(Claims::can_issue_at(8_210_266_876_799 - 172_800));
    assert!(!Claims::can_issue_at(8_210_266_876_799 - 172_799));
    assert!(!Claims::can_issue_at(i64::MIN));
}
