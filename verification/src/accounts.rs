//! What the account endpoints decide between their calls to the user store:
//! registration, login, and the fetch of a profile.

use vstd::prelude::*;
use vstd::std_specs::convert::FromSpecImpl;

use crate::error::AppError;
use crate::error::AppResult;
use crate::error::Failure;
use crate::identity::authentication;
use crate::identity::lemma_bearer_of;
use crate::identity::format_uuid;
use crate::identity::uuid_parsing;
use crate::identity::uuid_text;
use crate::identity::AuthUser;
use crate::password::bcrypt_verdict;
use crate::password::digest_form;
use crate::password::judges_every_password;
use crate::password::hash_password;
use crate::password::verify_password;
use crate::password::HASH_COST;
use crate::token::claims_at;
use crate::token::create_jwt_at;
use crate::token::issuance;
use crate::token::lifetime_out_of_range;
use crate::token::on_the_clock;
use crate::token::CLOCK_BOUND;
use crate::token::unix_now;

verus! {

/// A user as the store holds it. The identifier is the 128-bit value of the
/// user's UUID.
#[derive(Debug, Clone, PartialEq, Eq)]
pub struct UserRecord {
    pub id: u128,
    pub email: String,
    pub password_hash: String,
    pub name: String,
}

/// What the store is asked to insert for a new user.
#[derive(Debug, Clone, PartialEq, Eq)]
pub struct NewUser {
    pub email: String,
    pub password_hash: String,
    pub name: String,
}

/// A user as clients see it: the record without the password's digest.
#[derive(Debug, Clone, PartialEq, Eq)]
pub struct UserResponse {
    pub id: u128,
    pub email: String,
    pub name: String,
}

/// What a client gets at registration and at login.
#[derive(Debug, Clone, PartialEq, Eq)]
pub struct AuthResponse {
    pub token: String,
    pub user: UserResponse,
}

/// The part of a record that clients see.
pub open spec fn public_part(user: UserRecord) -> UserResponse {
    UserResponse { id: user.id, email: user.email, name: user.name }
}

impl From<UserRecord> for UserResponse {
    fn from(user: UserRecord) -> (shown: UserResponse) {
        UserResponse { id: user.id, email: user.email, name: user.name }
    }
}

impl FromSpecImpl<UserRecord> for UserResponse {
    open spec fn obeys_from_spec() -> bool {
        true
    }

    open spec fn from_spec(user: UserRecord) -> UserResponse {
        public_part(user)
    }
}

/// Passes on what the structural checks of an input came to: nothing where
/// they passed, a validation failure with their text where they did not.
pub fn validated(check: Result<(), String>) -> (passed: AppResult<()>)
    ensures
        check is Ok ==> passed is Ok,
        check matches Err(text) ==> (passed matches Err(e) && e@ == Failure::ValidationError(
            text@,
        )),
{
    match check {
        Ok(()) => Ok(()),
        Err(text) => Err(AppError::ValidationError(text)),
    }
}

/// The failure for a registration under an email that is taken.
pub open spec fn user_exists() -> Failure {
    Failure::BadRequest("User already exists"@)
}

/// The failure for a login that is refused, whether the email is unknown or
/// the password is wrong.
pub open spec fn invalid_credentials() -> Failure {
    Failure::Unauthorized("Invalid credentials"@)
}

/// `token` is a session token for the user `id`: it was issued at `now` for
/// `lifetime` seconds to the text of `id`, and that text reads back as `id`.
pub open spec fn session_issued(
    token: Seq<char>,
    id: u128,
    secret: Seq<char>,
    lifetime: i64,
    now: i64,
) -> bool {
    &&& issuance(token, uuid_text(id), secret, lifetime, now)
    &&& uuid_parsing(uuid_text(id)) == Some(id)
}

/// What opening a session for `user` at `now` comes to: a session token
/// with the user's public part, where there are claims for the lifetime,
/// and else the failure for a lifetime out of range.
pub open spec fn session_result(
    result: AppResult<AuthResponse>,
    user: UserRecord,
    secret: Seq<char>,
    lifetime: i64,
    now: i64,
) -> bool {
    match result {
        Ok(granted) => {
            &&& claims_at(uuid_text(user.id), now, lifetime) is Some
            &&& granted.user == public_part(user)
            &&& session_issued(granted.token@, user.id, secret, lifetime, now)
        },
        Err(error) => {
            &&& claims_at(uuid_text(user.id), now, lifetime) is None
            &&& error@ == lifetime_out_of_range()
        },
    }
}

/// What a login comes to at `now`, given what the store found under the
/// email.
pub open spec fn login_result(
    result: AppResult<AuthResponse>,
    found: Option<UserRecord>,
    password: Seq<char>,
    secret: Seq<char>,
    lifetime: i64,
    now: i64,
) -> bool {
    match found {
        None => result matches Err(error) && error@ == invalid_credentials(),
        Some(user) => match bcrypt_verdict(password, user.password_hash@) {
            None => result matches Err(error) && error@.is_internal(
                "Failed to verify password: "@,
            ),
            Some(false) => result matches Err(error) && error@ == invalid_credentials(),
            Some(true) => session_result(result, user, secret, lifetime, now),
        },
    }
}

/// Decides a registration once the store has looked the email up: refused
/// where the email is taken, else the row to insert, with a fresh digest of
/// the password in it.
pub fn register(email: &str, password: &str, name: &str, found: &Option<UserRecord>) -> (row:
    AppResult<NewUser>)
    ensures
        found is Some ==> (row matches Err(error) && error@ == user_exists()),
        found is None ==> match row {
            Ok(user) => {
                &&& user.email@ == email@
                &&& user.name@ == name@
                &&& bcrypt_verdict(password@, user.password_hash@) == Some(true)
                &&& digest_form(user.password_hash@, HASH_COST)
                &&& judges_every_password(user.password_hash@)
            },
            Err(error) => error@.is_internal("Failed to hash password: "@),
        },
{
    if found.is_some() {
        return Err(AppError::BadRequest("User already exists".to_owned()));
    }
    new_user_row(email, name, hash_password(password))
}

/// The row to insert for a new user, given what hashing the password came
/// to: the email and the name as they are with the digest beside them, or
/// the failure of the hashing as it is.
pub fn new_user_row(email: &str, name: &str, digest: AppResult<String>) -> (row: AppResult<
    NewUser,
>)
    ensures
        digest matches Ok(d) ==> (row matches Ok(user) && user.email@ == email@ && user.name@
            == name@ && user.password_hash == d),
        digest matches Err(e) ==> (row matches Err(error) && error == e),
{
    match digest {
        Ok(made) => Ok(
            NewUser { email: email.to_owned(), password_hash: made, name: name.to_owned() },
        ),
        Err(error) => Err(error),
    }
}

/// Opens a session for `user` at the time `now`: issues a token to the text
/// of the user's identifier and wraps it with the user's public part.
pub fn open_session_at(user: UserRecord, secret: &str, expiration: i64, now: i64) -> (result:
    AppResult<AuthResponse>)
    ensures
        session_result(result, user, secret@, expiration, now),
        result is Ok <==> 0 < expiration && now + expiration <= i64::MAX,
{
    let subject = format_uuid(user.id);
    match create_jwt_at(subject.as_str(), secret, expiration, now) {
        Ok(token) => Ok(AuthResponse { token, user: UserResponse::from(user) }),
        Err(error) => Err(error),
    }
}

/// Opens a session for `user` now.
pub fn open_session(user: UserRecord, secret: &str, expiration: i64) -> (result: AppResult<
    AuthResponse,
>)
    ensures
        exists|now: i64|
            on_the_clock(now) && #[trigger] session_result(result, user, secret@, expiration, now),
        expiration <= 0 ==> result is Err,
        0 < expiration <= i64::MAX - CLOCK_BOUND ==> result is Ok,
{
    let now = unix_now();
    open_session_at(user, secret, expiration, now)
}

/// Decides a login at the time `now`, given what the store found under the
/// email. An unknown email and a wrong password get the same failure.
pub fn login_at(
    found: Option<UserRecord>,
    password: &str,
    secret: &str,
    expiration: i64,
    now: i64,
) -> (result: AppResult<AuthResponse>)
    ensures
        login_result(result, found, password@, secret@, expiration, now),
{
    match found {
        None => Err(AppError::Unauthorized("Invalid credentials".to_owned())),
        Some(user) => match verify_password(password, user.password_hash.as_str()) {
            Err(error) => Err(error),
            Ok(false) => Err(AppError::Unauthorized("Invalid credentials".to_owned())),
            Ok(true) => open_session_at(user, secret, expiration, now),
        },
    }
}

/// Decides a login now, given what the store found under the email.
pub fn login(found: Option<UserRecord>, password: &str, secret: &str, expiration: i64) -> (result:
    AppResult<AuthResponse>)
    ensures
        exists|now: i64|
            on_the_clock(now) && #[trigger] login_result(
                result,
                found,
                password@,
                secret@,
                expiration,
                now,
            ),
{
    let now = unix_now();
    login_at(found, password, secret, expiration, now)
}

/// The profile of the user that the store holds for an authenticated
/// request: the record's public part.
pub fn get_profile(user: UserRecord) -> (profile: UserResponse)
    ensures
        profile == public_part(user),
{
    UserResponse::from(user)
}

/// A login with a wrong password and a login with an unknown email are
/// refused with one and the same failure, whatever the password tried with
/// the unknown email.
pub proof fn lemma_refusals_alike(
    wrong_password: AppResult<AuthResponse>,
    unknown_email: AppResult<AuthResponse>,
    user: UserRecord,
    password: Seq<char>,
    other_password: Seq<char>,
    secret: Seq<char>,
    lifetime: i64,
    now: i64,
)
    requires
        bcrypt_verdict(password, user.password_hash@) == Some(false),
        login_result(wrong_password, Some(user), password, secret, lifetime, now),
        login_result(unknown_email, None, other_password, secret, lifetime, now),
    ensures
        wrong_password matches Err(first) && unknown_email matches Err(second) && first@
            == second@ && first@ == invalid_credentials(),
{
}

/// A session token authenticates the requests that carry it as the user it
/// was issued to, at every time before its expiry.
pub proof fn lemma_session_authenticates(
    token: Seq<char>,
    id: u128,
    secret: Seq<char>,
    lifetime: i64,
    now: i64,
    at: i64,
)
    requires
        session_issued(token, id, secret, lifetime, now),
        at < now + lifetime,
    ensures
        authentication(Some("Bearer "@ + token), secret, at) == Ok::<AuthUser, Failure>(
            AuthUser { user_id: id },
        ),
{
    lemma_bearer_of(token);
}

/// Once a session token has expired, the requests that carry it are refused
/// with the failure of any other token that does not verify.
pub proof fn lemma_session_expires(
    token: Seq<char>,
    id: u128,
    secret: Seq<char>,
    lifetime: i64,
    now: i64,
    at: i64,
)
    requires
        session_issued(token, id, secret, lifetime, now),
        at >= now + lifetime,
    ensures
        authentication(Some("Bearer "@ + token), secret, at) == Err::<AuthUser, Failure>(
            crate::token::invalid_token(),
        ),
{
    lemma_bearer_of(token);
}

} // verus!
