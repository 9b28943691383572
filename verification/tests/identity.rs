use rust_web_app::error::AppError;
use rust_web_app::identity::bearer;
use rust_web_app::identity::AuthUser;
use rust_web_app::token::create_jwt;
use rust_web_app::token::create_jwt_at;
use rust_web_app::token::Claims;

const SECRET: &str = "secret";
const ID_TEXT: &str = "550e8400-e29b-41d4-a716-446655440000";
const ID: u128 = 0x550e8400_e29b_41d4_a716_446655440000;

fn unauthorized(text: &str) -> AppError {
    AppError::Unauthorized(text.to_string())
}

fn header_for(subject: &str, lifetime: i64, now: i64) -> String {
    format!("Bearer {}", create_jwt_at(subject, SECRET, lifetime, now).unwrap())
}

#[test]
fn missing_header_is_unauthorized() {
    let error = AuthUser::from_request_parts(None, SECRET).unwrap_err();
    assert_eq!(error, unauthorized("Missing authorization header"));
    assert_eq!(error.error_code(), "UNAUTHORIZED");
    assert_eq!(error.status_code(), 401);
    assert_eq!(AuthUser::from_request_parts_at(None, SECRET, 0), Err(error));
}

#[test]
fn wrong_scheme_is_unauthorized() {
    let error = AuthUser::from_request_parts(Some("Token abc"), SECRET).unwrap_err();
    assert_eq!(error, unauthorized("Invalid authorization format"));
    assert_eq!(error.status_code(), 401);
}

#[test]
fn header_of_another_form_is_unauthorized() {
    let headers =
        ["", "Bearer", "bearer abc", "BEARER abc", " Bearer abc", "Basic dTpw", "Bearer\tabc"];
    for header in headers {
        assert_eq!(
            AuthUser::from_request_parts_at(Some(header), SECRET, 0),
            Err(unauthorized("Invalid authorization format"))
        );
    }
}

#[test]
fn header_with_an_unreadable_token_is_unauthorized() {
    for header in ["Bearer ", "Bearer abc", "Bearer a.b.c", "Bearer  x"] {
        assert_eq!(
            AuthUser::from_request_parts_at(Some(header), SECRET, 0),
            Err(unauthorized("Invalid token"))
        );
    }
}

#[test]
fn valid_token_gives_the_user() {
    let header = header_for(ID_TEXT, 3600, 0);
    assert_eq!(
        AuthUser::from_request_parts_at(Some(&header), SECRET, 3599),
        Ok(AuthUser { user_id: ID })
    );
}

#[test]
fn token_issued_now_authenticates_now() {
    let header = format!("Bearer {}", create_jwt(ID_TEXT, SECRET, 3600).unwrap());
    assert_eq!(AuthUser::from_request_parts(Some(&header), SECRET), Ok(AuthUser { user_id: ID }));
}

#[test]
fn expired_token_is_unauthorized() {
    let header = header_for(ID_TEXT, 3600, 0);
    assert_eq!(
        AuthUser::from_request_parts_at(Some(&header), SECRET, 3600),
        Err(unauthorized("Invalid token"))
    );
    assert_eq!(
        AuthUser::from_request_parts(Some(&header), SECRET),
        Err(unauthorized("Invalid token"))
    );
}

#[test]
fn token_under_another_secret_is_unauthorized() {
    let header = header_for(ID_TEXT, 3600, 0);
    assert_eq!(
        AuthUser::from_request_parts_at(Some(&header), "other", 10),
        Err(unauthorized("Invalid token"))
    );
}

#[test]
fn subject_that_is_no_identifier_is_unauthorized() {
    let subjects = [
        "u-1",
        "",
        "550e8400-e29b-41d4-a716-44665544000",
        "550e8400-e29b-41d4-a716-44665544000g",
    ];
    for subject in subjects {
        let header = header_for(subject, 3600, 0);
        assert_eq!(
            AuthUser::from_request_parts_at(Some(&header), SECRET, 10),
            Err(unauthorized("invalid identity in token"))
        );
    }
}

#[test]
fn the_token_is_judged_before_the_subject() {
    let header = header_for("u-1", 3600, 0);
    assert_eq!(
        AuthUser::from_request_parts_at(Some(&header), SECRET, 3601),
        Err(unauthorized("Invalid token"))
    );
}

#[test]
fn every_written_form_of_an_identifier_is_read() {
    for subject in [
        "550e8400-e29b-41d4-a716-446655440000",
        "550E8400-E29B-41D4-A716-446655440000",
        "550e8400e29b41d4a716446655440000",
        "{550e8400-e29b-41d4-a716-446655440000}",
        "urn:uuid:550e8400-e29b-41d4-a716-446655440000",
    ] {
        let claims = Claims { sub: subject.to_string(), exp: 1, iat: 0 };
        assert_eq!(AuthUser::from_claims(&claims), Ok(AuthUser { user_id: ID }));
    }
}

#[test]
fn extreme_identifiers_are_read() {
    let nil = Claims { sub: "00000000-0000-0000-0000-000000000000".to_string(), exp: 1, iat: 0 };
    assert_eq!(AuthUser::from_claims(&nil), Ok(AuthUser { user_id: 0 }));
    let max = Claims { sub: "ffffffff-ffff-ffff-ffff-ffffffffffff".to_string(), exp: 1, iat: 0 };
    assert_eq!(AuthUser::from_claims(&max), Ok(AuthUser { user_id: u128::MAX }));
}

#[test]
fn parsed_subject_stands_for_a_user_or_fails() {
    assert_eq!(AuthUser::from_subject(Some(7)), Ok(AuthUser { user_id: 7 }));
    assert_eq!(AuthUser::from_subject(None), Err(unauthorized("invalid identity in token")));
}

#[test]
fn bearer_takes_what_follows_the_scheme() {
    assert_eq!(bearer("Bearer abc"), Some("abc"));
    assert_eq!(bearer("Bearer "), Some(""));
    assert_eq!(bearer("Bearer Bearer x"), Some("Bearer x"));
    assert_eq!(bearer("Bearer  abc"), Some(" abc"));
    assert_eq!(bearer("Bearer ✓"), Some("✓"));
    assert_eq!(bearer("Bearer"), None);
    assert_eq!(bearer("Token abc"), None);
    assert_eq!(bearer(""), None);
}
