//! Session tokens: claims signed with a shared secret into a compact string,
//! and verified without any state on the server. A token is valid while the
//! time is before its expiry, with no grace.

use vstd::prelude::*;
use vstd::string::StringExecFns;

use crate::error::outcome;
use crate::error::AppError;
use crate::error::AppResult;
use crate::error::Failure;

verus! {

/// What a session token says: whom it was issued to, and the Unix times, in
/// seconds, at which it was issued and at which it stops being valid. In the
/// claims of every token issued here the second time lies after the first.
#[derive(Debug, Clone, PartialEq, Eq)]
pub struct Claims {
    pub sub: String,
    pub exp: i64,
    pub iat: i64,
}

/// The claims as contracts see them.
pub struct ClaimsView {
    pub sub: Seq<char>,
    pub exp: i64,
    pub iat: i64,
}

impl View for Claims {
    type V = ClaimsView;

    open spec fn view(&self) -> ClaimsView {
        ClaimsView { sub: self.sub@, exp: self.exp, iat: self.iat }
    }
}

impl ClaimsView {
    /// The expiry lies after the issuance.
    pub open spec fn well_formed(self) -> bool {
        self.iat < self.exp
    }
}

/// The error type of the `jsonwebtoken` crate.
#[verifier::external_type_specification]
#[verifier::external_body]
pub struct ExTokenError(jsonwebtoken::errors::Error);

/// The token that `jsonwebtoken::encode` makes of the claims `sub`, `exp` and
/// `iat` with the default header and the secret as an HMAC key.
pub uninterp spec fn jwt_encoding(claims: ClaimsView, secret: Seq<char>) -> Seq<char>;

/// The claims `sub`, `exp` and `iat` that `jsonwebtoken::decode` reads from a
/// token whose HS256 signature matches the secret; `None` for a token that
/// it refuses or that lacks one of the three. The expiry is read, not judged.
pub uninterp spec fn jwt_decoding(token: Seq<char>, secret: Seq<char>) -> Option<ClaimsView>;

/// Calls `jsonwebtoken::encode` with the default header (HS256), the three
/// claims as a JSON object and the secret's bytes as the key. The result is
/// a function of the claims and the secret. The call has no failure on such
/// arguments: the key is of the header's family, a header and an object of
/// a text and two integers always serialise, and signing with HMAC returns
/// no error. The token is signed with the same key that `decode` then checks
/// it against and holds the claims as they were given, so decoding it under
/// the same secret gives the claims back.
#[verifier::external_body]
fn sign_claims(claims: &Claims, secret: &str) -> (signed: Result<
    String,
    jsonwebtoken::errors::Error,
>)
    ensures
        signed is Ok,
        signed matches Ok(token) ==> token@ == jwt_encoding(claims@, secret@),
        signed matches Ok(token) ==> jwt_decoding(token@, secret@) == Some(claims@),
{
    let mut payload = serde_json::Map::new();
    payload.insert("sub".to_string(), serde_json::Value::from(claims.sub.as_str()));
    payload.insert("exp".to_string(), serde_json::Value::from(claims.exp));
    payload.insert("iat".to_string(), serde_json::Value::from(claims.iat));
    let key = jsonwebtoken::EncodingKey::from_secret(secret.as_bytes());
    jsonwebtoken::encode(&jsonwebtoken::Header::default(), &payload, &key)
}

/// Calls `jsonwebtoken::decode` for HS256 with the secret's bytes as the key,
/// with the check of the expiry against the clock switched off and no claim
/// required, and picks `sub`, `exp` and `iat` out of the payload. The result
/// is a function of the token and the secret.
#[verifier::external_body]
fn read_claims(token: &str, secret: &str) -> (decoded: Option<Claims>)
    ensures
        decoded matches Some(claims) ==> jwt_decoding(token@, secret@) == Some(claims@),
        decoded is None ==> jwt_decoding(token@, secret@) is None,
{
    let mut rules = jsonwebtoken::Validation::new(jsonwebtoken::Algorithm::HS256);
    rules.validate_exp = false;
    rules.required_spec_claims.clear();
    let key = jsonwebtoken::DecodingKey::from_secret(secret.as_bytes());
    let payload = jsonwebtoken::decode::<serde_json::Value>(token, &key, &rules).ok()?.claims;
    Some(Claims {
        sub: payload.get("sub")?.as_str()?.to_string(),
        exp: payload.get("exp")?.as_i64()?,
        iat: payload.get("iat")?.as_i64()?,
    })
}

/// No time that the clock gives is as far from the epoch as this many
/// seconds, before it or after it.
pub const CLOCK_BOUND: i64 = 0x1_0000_0000_0000;

/// The time is one that the clock can give.
pub open spec fn on_the_clock(now: i64) -> bool {
    -CLOCK_BOUND < now < CLOCK_BOUND
}

/// Reads the clock: `chrono::Utc::now().timestamp()`, the Unix time in
/// seconds. Two calls may differ. Of the value only its range is known:
/// `timestamp` computes it from a count of days that is an `i32` and a count
/// of seconds within one day.
#[verifier::external_body]
pub(crate) fn unix_now() -> (now: i64)
    ensures
        on_the_clock(now),
{
    chrono::Utc::now().timestamp()
}

/// The claims of a token issued to `subject` at `now` for `lifetime` seconds.
/// There are none for a lifetime that is not positive, since the expiry of a
/// token lies after its issuance, nor where the expiry is no `i64`.
pub open spec fn claims_at(subject: Seq<char>, now: i64, lifetime: i64) -> Option<ClaimsView> {
    if 0 < lifetime && now + lifetime <= i64::MAX {
        Some(ClaimsView { sub: subject, exp: (now + lifetime) as i64, iat: now })
    } else {
        None
    }
}

/// `token` is what issuing to `subject` at `now` for `lifetime` seconds under
/// `secret` gives.
pub open spec fn issuance(
    token: Seq<char>,
    subject: Seq<char>,
    secret: Seq<char>,
    lifetime: i64,
    now: i64,
) -> bool {
    &&& claims_at(subject, now, lifetime) matches Some(claims)
    &&& jwt_encoding(claims, secret) == token
    &&& jwt_decoding(token, secret) == Some(claims)
}

/// The failure to issue a token for a lifetime that is not positive, or so
/// long that the expiry would be no `i64`.
pub open spec fn lifetime_out_of_range() -> Failure {
    Failure::InternalError("Failed to create JWT: "@ + "lifetime out of range"@)
}

/// What issuing a token to `subject` at `now` for `lifetime` seconds under
/// `secret` comes to: the token that the signer makes of the claims, where
/// there are claims for that lifetime, and else the failure for a lifetime
/// out of range.
pub open spec fn creation(
    result: AppResult<String>,
    subject: Seq<char>,
    secret: Seq<char>,
    lifetime: i64,
    now: i64,
) -> bool {
    match claims_at(subject, now, lifetime) {
        None => result matches Err(error) && error@ == lifetime_out_of_range(),
        Some(claims) => result matches Ok(made) && made@ == jwt_encoding(claims, secret)
            && issuance(made@, subject, secret, lifetime, now),
    }
}

/// The one failure that a client is told of a token, whatever was wrong.
pub open spec fn invalid_token() -> Failure {
    Failure::Unauthorized("Invalid token"@)
}

/// What becomes of decoded claims at `now`: they stand while `now` is before
/// the expiry, and not a second longer.
pub open spec fn unexpired(decoded: Option<ClaimsView>, now: i64) -> Result<ClaimsView, Failure> {
    match decoded {
        Some(claims) => if now < claims.exp {
            Ok(claims)
        } else {
            Err(invalid_token())
        },
        None => Err(invalid_token()),
    }
}

/// What verifying `token` under `secret` at `now` gives.
pub open spec fn verification(token: Seq<char>, secret: Seq<char>, now: i64) -> Result<
    ClaimsView,
    Failure,
> {
    unexpired(jwt_decoding(token, secret), now)
}

impl Claims {
    /// The claims for `subject`, issued at `now`, valid for `lifetime`
    /// seconds; none for a lifetime that is not positive or too long.
    pub fn issued_at(subject: &str, now: i64, lifetime: i64) -> (claims: Option<Claims>)
        ensures
            claims matches Some(c) ==> claims_at(subject@, now, lifetime) == Some(c@),
            claims is None ==> claims_at(subject@, now, lifetime) is None,
            claims matches Some(c) ==> c@.well_formed(),
            claims is Some <==> 0 < lifetime && now + lifetime <= i64::MAX,
    {
        if lifetime <= 0 {
            return None;
        }
        match now.checked_add(lifetime) {
            Some(expiry) => Some(Claims { sub: subject.to_owned(), exp: expiry, iat: now }),
            None => None,
        }
    }
}

/// Issues a token to `user_id` at the time `now`, valid for `expiration`
/// seconds, signed with `secret`. A token is issued for every lifetime that
/// is positive and ends at a time that is an `i64`, and for no other: the
/// expiry of every token lies after its issuance.
pub fn create_jwt_at(user_id: &str, secret: &str, expiration: i64, now: i64) -> (token: AppResult<
    String,
>)
    ensures
        creation(token, user_id@, secret@, expiration, now),
        token matches Ok(t) ==> issuance(t@, user_id@, secret@, expiration, now),
        token matches Ok(t) ==> (jwt_decoding(t@, secret@) matches Some(claims)
            && claims.well_formed()),
        token matches Err(e) ==> e@ == lifetime_out_of_range(),
        token is Ok <==> 0 < expiration && now + expiration <= i64::MAX,
{
    match Claims::issued_at(user_id, now, expiration) {
        Some(claims) => match sign_claims(&claims, secret) {
            Ok(token) => Ok(token),
            // The signer has no failure on these arguments; its error type
            // is given an answer all the same.
            Err(error) => {
                let detail = error.to_string();
                Err(creation_failure(detail.as_str()))
            },
        },
        None => Err(creation_failure("lifetime out of range")),
    }
}

/// The failure to issue a token, with the reason after a fixed opening.
fn creation_failure(detail: &str) -> (error: AppError)
    ensures
        error@ == Failure::InternalError("Failed to create JWT: "@ + detail@),
        error@.is_internal("Failed to create JWT: "@),
{
    let text = String::from_str("Failed to create JWT: ").concat(detail);
    AppError::InternalError(text)
}

/// Issues a token to `user_id` now, valid for `expiration` seconds, signed
/// with `secret`. No token is issued for a lifetime that is not positive.
pub fn create_jwt(user_id: &str, secret: &str, expiration: i64) -> (token: AppResult<String>)
    ensures
        exists|now: i64|
            on_the_clock(now) && #[trigger] creation(token, user_id@, secret@, expiration, now),
        token matches Ok(t) ==> (jwt_decoding(t@, secret@) matches Some(claims)
            && claims.well_formed()),
        token matches Err(e) ==> e@ == lifetime_out_of_range(),
        expiration <= 0 ==> token is Err,
        0 < expiration <= i64::MAX - CLOCK_BOUND ==> token is Ok,
{
    let now = unix_now();
    create_jwt_at(user_id, secret, expiration, now)
}

/// Judges decoded claims at the time `now`.
pub fn check_expiry(decoded: Option<Claims>, now: i64) -> (claims: AppResult<Claims>)
    ensures
        outcome(claims) == unexpired(
            match decoded {
                Some(c) => Some(c@),
                None => None,
            },
            now,
        ),
        claims matches Ok(c) ==> decoded == Some(c),
{
    match decoded {
        Some(claims) => {
            if now < claims.exp {
                Ok(claims)
            } else {
                Err(AppError::Unauthorized("Invalid token".to_owned()))
            }
        },
        None => Err(AppError::Unauthorized("Invalid token".to_owned())),
    }
}

/// Verifies `token` under `secret` at the time `now`.
pub fn verify_jwt_at(token: &str, secret: &str, now: i64) -> (claims: AppResult<Claims>)
    ensures
        outcome(claims) == verification(token@, secret@, now),
{
    check_expiry(read_claims(token, secret), now)
}

/// Verifies `token` under `secret` now.
pub fn verify_jwt(token: &str, secret: &str) -> (claims: AppResult<Claims>)
    ensures
        exists|now: i64|
            on_the_clock(now) && outcome(claims) == #[trigger] verification(token@, secret@, now),
        claims matches Err(e) ==> e@ == invalid_token(),
        claims matches Ok(c) ==> jwt_decoding(token@, secret@) == Some(c@),
        jwt_decoding(token@, secret@) is None ==> claims is Err,
{
    let now = unix_now();
    verify_jwt_at(token, secret, now)
}

/// A token verifies under the secret it was issued with, at every time before
/// its expiry, and gives back the claims it was issued with: the subject,
/// the time of issuance, and the expiry.
pub proof fn lemma_issued_token_verifies(
    token: Seq<char>,
    subject: Seq<char>,
    secret: Seq<char>,
    lifetime: i64,
    now: i64,
    at: i64,
)
    requires
        issuance(token, subject, secret, lifetime, now),
        at < now + lifetime,
    ensures
        verification(token, secret, at) == Ok::<ClaimsView, Failure>(
            ClaimsView { sub: subject, exp: (now + lifetime) as i64, iat: now },
        ),
{
}

/// A token with a positive lifetime verifies at the moment it is issued.
pub proof fn lemma_round_trip(
    token: Seq<char>,
    subject: Seq<char>,
    secret: Seq<char>,
    lifetime: i64,
    now: i64,
)
    requires
        issuance(token, subject, secret, lifetime, now),
        lifetime > 0,
    ensures
        verification(token, secret, now) matches Ok(claims) && claims.sub == subject
            && claims.well_formed(),
{
}

/// An issued token verifies exactly at the times before its expiry.
pub proof fn lemma_valid_until_expiry(
    token: Seq<char>,
    subject: Seq<char>,
    secret: Seq<char>,
    lifetime: i64,
    now: i64,
    at: i64,
)
    requires
        issuance(token, subject, secret, lifetime, now),
    ensures
        verification(token, secret, at) is Ok <==> at < now + lifetime,
        verification(token, secret, at) is Err ==> verification(token, secret, at) == Err::<
            ClaimsView,
            Failure,
        >(invalid_token()),
{
}

/// A token whose expiry is not after `now` is refused, whatever the secret,
/// and so is one that does not decode; the failure is the same for both.
pub proof fn lemma_expired_token_rejected(token: Seq<char>, secret: Seq<char>, now: i64)
    requires
        jwt_decoding(token, secret) matches Some(claims) ==> claims.exp <= now,
    ensures
        verification(token, secret, now) == Err::<ClaimsView, Failure>(invalid_token()),
{
}

} // verus!
