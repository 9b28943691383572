//! The authentication of a request from its `Authorization` header: the
//! header is looked at first, then the token in it, then the subject of the
//! token.

use vstd::prelude::*;

use crate::error::AppError;
use crate::error::AppResult;
use crate::error::Failure;
use crate::token::on_the_clock;
use crate::token::unix_now;
use crate::token::verification;
use crate::token::verify_jwt_at;
use crate::token::Claims;

verus! {

/// Who makes a request, once the request's token has been verified. The
/// identifier is the 128-bit value of the user's UUID.
#[derive(Debug, Clone, Copy, PartialEq, Eq, Structural)]
pub struct AuthUser {
    pub user_id: u128,
}

/// The identifier that `uuid::Uuid::parse_str` reads from a text, as a
/// 128-bit value; `None` where the text is no UUID.
pub uninterp spec fn uuid_parsing(text: Seq<char>) -> Option<u128>;

/// Calls `uuid::Uuid::parse_str` and takes the identifier's 128-bit value.
/// The result is a function of the text.
#[verifier::external_body]
fn parse_uuid(text: &str) -> (id: Option<u128>)
    ensures
        id == uuid_parsing(text@),
{
    match uuid::Uuid::parse_str(text) {
        Ok(id) => Some(id.as_u128()),
        Err(_) => None,
    }
}

/// The text that `uuid::Uuid` writes for an identifier given as a 128-bit
/// value: thirty-two lower-case hexadecimal digits in five groups.
pub uninterp spec fn uuid_text(id: u128) -> Seq<char>;

/// Makes a `uuid::Uuid` of the 128-bit value and calls its `to_string`. The
/// result is a function of the value, and `uuid::Uuid::parse_str` reads the
/// same value back from it.
#[verifier::external_body]
pub(crate) fn format_uuid(id: u128) -> (text: String)
    ensures
        text@ == uuid_text(id),
        uuid_parsing(text@) == Some(id),
{
    uuid::Uuid::from_u128(id).to_string()
}

/// Calls `str::strip_prefix`: the rest of the text where it starts with the
/// prefix, and `None` where it does not.
#[verifier::external_body]
fn strip_prefix<'a>(text: &'a str, prefix: &str) -> (rest: Option<&'a str>)
    ensures
        rest matches Some(tail) ==> text@ == prefix@ + tail@,
        rest is None ==> !prefix@.is_prefix_of(text@),
{
    text.strip_prefix(prefix)
}

/// The token in the value of an `Authorization` header: what follows
/// `Bearer` and one space. `None` for any other form.
pub open spec fn bearer_token(header: Seq<char>) -> Option<Seq<char>> {
    if "Bearer "@.is_prefix_of(header) {
        Some(header.skip("Bearer "@.len() as int))
    } else {
        None
    }
}

/// The failure for a request without a readable `Authorization` header.
pub open spec fn missing_header() -> Failure {
    Failure::Unauthorized("Missing authorization header"@)
}

/// The failure for an `Authorization` header of another form than `Bearer`.
pub open spec fn malformed_header() -> Failure {
    Failure::Unauthorized("Invalid authorization format"@)
}

/// The failure for a verified token whose subject is no user identifier.
pub open spec fn invalid_identity() -> Failure {
    Failure::Unauthorized("invalid identity in token"@)
}

/// Whom a parsed subject stands for.
pub open spec fn identity(parsed: Option<u128>) -> Result<AuthUser, Failure> {
    match parsed {
        Some(id) => Ok(AuthUser { user_id: id }),
        None => Err(invalid_identity()),
    }
}

/// What authenticating a request at `now` gives: first the header is looked
/// at, then the token, then the subject in it.
pub open spec fn authentication(header: Option<Seq<char>>, secret: Seq<char>, now: i64) -> Result<
    AuthUser,
    Failure,
> {
    match header {
        None => Err(missing_header()),
        Some(value) => match bearer_token(value) {
            None => Err(malformed_header()),
            Some(token) => match verification(token, secret, now) {
                Err(failure) => Err(failure),
                Ok(claims) => identity(uuid_parsing(claims.sub)),
            },
        },
    }
}

/// What came of an authentication, as contracts see it.
pub open spec fn verdict(result: AppResult<AuthUser>) -> Result<AuthUser, Failure> {
    match result {
        Ok(user) => Ok(user),
        Err(error) => Err(error@),
    }
}

/// A header value as contracts see it.
pub open spec fn header_view(header: Option<&str>) -> Option<Seq<char>> {
    match header {
        Some(value) => Some(value@),
        None => None,
    }
}

/// Takes the token out of the value of an `Authorization` header.
pub fn bearer(header: &str) -> (token: Option<&str>)
    ensures
        token matches Some(t) ==> bearer_token(header@) == Some(t@),
        token is None ==> bearer_token(header@) is None,
{
    let token = strip_prefix(header, "Bearer ");
    proof {
        if let Some(t) = token {
            lemma_bearer_of(t@);
        }
    }
    token
}

/// The value made of `Bearer`, one space and a token holds that token.
pub proof fn lemma_bearer_of(token: Seq<char>)
    ensures
        bearer_token("Bearer "@ + token) == Some(token),
{
    let prefix = "Bearer "@;
    let header = prefix + token;
    assert(header.subrange(0, prefix.len() as int) =~= prefix);
    assert(header.skip(prefix.len() as int) =~= token);
}

impl AuthUser {
    /// The user that a parsed subject stands for.
    pub fn from_subject(parsed: Option<u128>) -> (user: AppResult<AuthUser>)
        ensures
            verdict(user) == identity(parsed),
    {
        match parsed {
            Some(id) => Ok(AuthUser { user_id: id }),
            None => Err(AppError::Unauthorized("invalid identity in token".to_owned())),
        }
    }

    /// The user that verified claims were issued to.
    pub fn from_claims(claims: &Claims) -> (user: AppResult<AuthUser>)
        ensures
            verdict(user) == identity(uuid_parsing(claims@.sub)),
    {
        AuthUser::from_subject(parse_uuid(claims.sub.as_str()))
    }

    /// Authenticates a request at the time `now` from the value of its
    /// `Authorization` header, if it has one, and the signing secret.
    pub fn from_request_parts_at(authorization: Option<&str>, secret: &str, now: i64) -> (user:
        AppResult<AuthUser>)
        ensures
            verdict(user) == authentication(header_view(authorization), secret@, now),
    {
        match authorization {
            None => Err(AppError::Unauthorized("Missing authorization header".to_owned())),
            Some(value) => match bearer(value) {
                None => Err(AppError::Unauthorized("Invalid authorization format".to_owned())),
                Some(token) => match verify_jwt_at(token, secret, now) {
                    Err(error) => Err(error),
                    Ok(claims) => AuthUser::from_claims(&claims),
                },
            },
        }
    }

    /// Authenticates a request now from the value of its `Authorization`
    /// header, if it has one, and the signing secret.
    pub fn from_request_parts(authorization: Option<&str>, secret: &str) -> (user: AppResult<
        AuthUser,
    >)
        ensures
            exists|now: i64|
                on_the_clock(now) && verdict(user) == #[trigger] authentication(
                    header_view(authorization),
                    secret@,
                    now,
                ),
            user matches Err(e) ==> e@ is Unauthorized,
    {
        let now = unix_now();
        AuthUser::from_request_parts_at(authorization, secret, now)
    }
}

/// Whatever the header, the secret and the time, a request is authenticated
/// or it is refused as unauthorized, under the status and the code of that
/// variant; and a request without a header is refused as such.
pub proof fn lemma_refusal_is_unauthorized(header: Option<Seq<char>>, secret: Seq<char>, now: i64)
    ensures
        authentication(header, secret, now) matches Err(failure) ==> failure is Unauthorized
            && failure.status() == 401 && failure.code() == "UNAUTHORIZED"@,
        header is None ==> authentication(header, secret, now) == Err::<AuthUser, Failure>(
            missing_header(),
        ),
{
}

} // verus!
