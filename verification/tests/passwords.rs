use rust_web_app::error::AppError;
use rust_web_app::password::checking_result;
use rust_web_app::password::hash_password;
use rust_web_app::password::hashing_result;
use rust_web_app::password::verify_password;
use rust_web_app::password::HASH_COST;

/// A digest of `correctbatteryhorsestapler` at the lowest cost.
const DIGEST: &str = "$2b$04$EGdrhbKUv8Oc9vGiXX0HQOxSg445d458Muh7DAHskb6QbtCvdxcie";

fn internal(result: Result<impl std::fmt::Debug, AppError>, opening: &str) {
    match result {
        Err(AppError::InternalError(text)) => {
            assert!(text.starts_with(opening), "{}", text);
            assert!(text.len() > opening.len(), "{}", text);
        }
        other => panic!("{:?}", other),
    }
}

#[test]
fn digest_verifies_against_its_password() {
    let digest = hash_password("hunter2").unwrap();
    assert_eq!(verify_password("hunter2", &digest), Ok(true));
}

#[test]
fn digest_does_not_verify_against_another_password() {
    let digest = hash_password("hunter2").unwrap();
    assert_eq!(verify_password("hunter3", &digest), Ok(false));
}

#[test]
fn fresh_digest_has_a_verdict_on_other_passwords() {
    let digest = hash_password("hunter2").unwrap();
    assert_eq!(verify_password("", &digest), Ok(false));
}

#[test]
fn two_digests_of_one_password_differ() {
    let first = hash_password("hunter2").unwrap();
    let second = hash_password("hunter2").unwrap();
    assert_ne!(first, second);
}

#[test]
fn digest_has_the_bcrypt_form_at_the_fixed_cost() {
    assert_eq!(HASH_COST, 12);
    assert_eq!(HASH_COST, bcrypt::DEFAULT_COST);
    let digest = hash_password("hunter2").unwrap();
    assert!(digest.starts_with("$2b$12$"), "{}", digest);
    assert_eq!(digest.len(), 60);
    assert_ne!(digest, "hunter2");
}

#[test]
fn empty_password_has_a_digest() {
    let digest = hash_password("").unwrap();
    assert_eq!(verify_password("", &digest), Ok(true));
}

#[test]
fn known_digest_verifies() {
    assert_eq!(verify_password("correctbatteryhorsestapler", DIGEST), Ok(true));
    assert_eq!(
        verify_password("password", "$2a$04$UuTkLRZZ6QofpDOlMz32MuuxEHA43WOemOYHPz6.SjsVsyO1tDU96"),
        Ok(true)
    );
}

#[test]
fn known_digest_refuses_other_passwords() {
    let others = [
        "",
        "wrong",
        "correctbatteryhorsestaple",
        "correctbatteryhorsestapler ",
        "Correctbatteryhorsestapler",
    ];
    for wrong in others {
        assert_eq!(verify_password(wrong, DIGEST), Ok(false));
    }
}

#[test]
fn digest_of_a_cheap_hasher_verifies_too() {
    let digest = bcrypt::hash("pässwörd", 4).unwrap();
    assert_eq!(verify_password("pässwörd", &digest), Ok(true));
    assert_eq!(verify_password("password", &digest), Ok(false));
}

#[test]
fn malformed_digest_is_an_internal_failure() {
    for digest in [
        "",
        "hunter2",
        "$2b$04$",
        "$2b$04$tooshort",
        "$9z$04$EGdrhbKUv8Oc9vGiXX0HQOxSg445d458Muh7DAHskb6QbtCvdxcie",
        "$2b$xx$EGdrhbKUv8Oc9vGiXX0HQOxSg445d458Muh7DAHskb6QbtCvdxcie",
        "$2b$03$EGdrhbKUv8Oc9vGiXX0HQOxSg445d458Muh7DAHskb6QbtCvdxcie",
        "$2b$04$EGdrhbKUv8Oc9vGiXX0HQ\u{e9}Sg445d458Muh7DAHskb6QbtCvdxci",
    ] {
        internal(verify_password("hunter2", digest), "Failed to verify password: ");
    }
}

#[test]
fn hashers_answer_is_passed_on_or_wrapped() {
    assert_eq!(hashing_result(Ok("digest".to_string())), Ok("digest".to_string()));
    internal(
        hashing_result(Err(bcrypt::BcryptError::CostNotAllowed(99))),
        "Failed to hash password: ",
    );
}

#[test]
fn verdict_is_passed_on_or_wrapped() {
    assert_eq!(checking_result(Ok(true)), Ok(true));
    assert_eq!(checking_result(Ok(false)), Ok(false));
    match checking_result(Err(bcrypt::BcryptError::InvalidHash("x".to_string()))) {
        Err(AppError::InternalError(text)) => {
            assert_eq!(text, "Failed to verify password: Invalid hash: x")
        }
        other => panic!("{:?}", other),
    }
}
