//! Administrator credentials: password hashes and signed bearer tokens.
use vstd::prelude::*;

use crate::utils::text::text_eq;

verus! {

/// Lifetime of an issued token, in seconds.
pub const TOKEN_LIFETIME_SECS: i64 = 86400;

/// What a token asserts: the administrator's email and when the token expires
/// (seconds since the Unix epoch).
pub struct Claims {
    pub sub: String,
    pub exp: u64,
}

/// An authenticated administrator.
#[derive(Debug, Clone)]
pub struct AdminAuth {
    pub email: String,
}

/// Why a token could not be issued.
#[derive(Debug)]
pub enum TokenError {
    /// The clock reads a time from which no expiry can be computed.
    InvalidTimestamp,
    /// The signer refused the claims.
    Encoding,
}

#[verifier::external_type_specification]
#[verifier::external_body]
pub struct ExBcryptError(bcrypt::BcryptError);

#[verifier::external_type_specification]
#[verifier::external_body]
pub struct ExJwtError(jsonwebtoken::errors::Error);

/// Relies on bcrypt's `hash` at `DEFAULT_COST` (12): the result is formatted as
/// `$2b$12$` followed by the salt and the digest; the salt is random.
#[verifier::external_body]
pub fn hash_password(password: &str) -> (r: Result<String, bcrypt::BcryptError>)
    ensures
        r matches Ok(h) ==> h@.len() >= 7 && h@.subrange(0, 7) == "$2b$12$"@,
{
    bcrypt::hash(password, bcrypt::DEFAULT_COST)
}

/// What bcrypt's `verify` answers for a password and a stored hash: whether
/// they match, or `None` where the hash cannot be read.
pub uninterp spec fn bcrypt_verdict(password: Seq<char>, hash: Seq<char>) -> Option<bool>;

/// Relies on bcrypt's `verify`: its answer depends on the password and the hash alone.
#[verifier::external_body]
fn bcrypt_verify(password: &str, hash: &str) -> (r: Option<bool>)
    ensures
        r == bcrypt_verdict(password@, hash@),
{
    bcrypt::verify(password, hash).ok()
}

/// Whether `password` matches the stored bcrypt `hash`; a hash that cannot be
/// read matches nothing.
pub fn verify_password(password: &str, hash: &str) -> (r: bool)
    ensures
        r == (bcrypt_verdict(password@, hash@) == Some(true)),
{
    match bcrypt_verify(password, hash) {
        Some(b) => b,
        None => false,
    }
}

/// The HS256 token, with the default header, over the claims `sub` and `exp`,
/// signed with `secret`.
pub uninterp spec fn hs256_token(sub: Seq<char>, exp: u64, secret: Seq<char>) -> Seq<char>;

/// Relies on jsonwebtoken's `encode` with `Header::default()` (HS256) and
/// `EncodingKey::from_secret`: a deterministic function of the claims and the secret.
#[verifier::external_body]
fn sign_claims(claims: &Claims, secret: &str) -> (r: Result<String, jsonwebtoken::errors::Error>)
    ensures
        r matches Ok(t) ==> t@ == hs256_token(claims.sub@, claims.exp, secret@),
{
    let mut fields = serde_json::Map::new();
    fields.insert("sub".to_string(), serde_json::Value::from(claims.sub.as_str()));
    fields.insert("exp".to_string(), serde_json::Value::from(claims.exp));
    let key = jsonwebtoken::EncodingKey::from_secret(secret.as_bytes());
    jsonwebtoken::encode(&jsonwebtoken::Header::default(), &fields, &key)
}

/// Relies on chrono's `Utc::now` and `DateTime::timestamp`: seconds since the
/// Unix epoch, of which nothing is known here.
#[verifier::external_body]
fn now_secs() -> (r: i64) {
    chrono::Utc::now().timestamp()
}

/// The expiry of a token issued at `now`: one day later, where that is a
/// representable non-negative time.
pub fn expiry_after(now: i64) -> (r: Option<u64>)
    ensures
        (0 <= now && now + TOKEN_LIFETIME_SECS <= i64::MAX) <==> r is Some,
        r matches Some(e) ==> e == now + TOKEN_LIFETIME_SECS,
{
    if now < 0 || now > i64::MAX - TOKEN_LIFETIME_SECS {
        None
    } else {
        Some((now + TOKEN_LIFETIME_SECS) as u64)
    }
}

/// Issues a token for `email` that expires one day from now, signed with `secret`.
pub fn create_jwt(email: &str, secret: &str) -> (r: Result<String, TokenError>)
    ensures
        r matches Ok(t) ==> exists|exp: u64| t@ == hs256_token(email@, exp, secret@),
{
    let exp = match expiry_after(now_secs()) {
        Some(e) => e,
        None => return Err(TokenError::InvalidTimestamp),
    };
    let claims = Claims { sub: String::from_str(email), exp };
    match sign_claims(&claims, secret) {
        Ok(t) => Ok(t),
        Err(_) => Err(TokenError::Encoding),
    }
}

/// The token of an `Authorization` header of the form `Bearer <token>`.
pub fn bearer_token(header: &str) -> (r: Option<&str>)
    ensures
        r is Some <==> (header@.len() >= 7 && header@.subrange(0, 7) == "Bearer "@),
        r matches Some(t) ==> t@ == header@.subrange(7, header@.len() as int),
{
    let prefix = "Bearer ";
    proof {
        reveal_strlit("Bearer ");
    }
    let n = header.unicode_len();
    if n < 7 {
        return None;
    }
    let head = header.substring_char(0, 7);
    if !text_eq(head, prefix) {
        return None;
    }
    Some(header.substring_char(7, n))
}

/// Relies on jsonwebtoken's `decode` with HS256 validation and
/// `DecodingKey::from_secret`: the `sub` claim of a token whose signature and
/// expiry check out. The expiry is checked against the clock, so nothing is
/// known of the result here.
#[verifier::external_body]
fn verified_subject(token: &str, secret: &str) -> (r: Option<String>) {
    let key = jsonwebtoken::DecodingKey::from_secret(secret.as_bytes());
    let validation = jsonwebtoken::Validation::new(jsonwebtoken::Algorithm::HS256);
    let data = jsonwebtoken::decode::<serde_json::Value>(token, &key, &validation).ok()?;
    data.claims.get("sub").and_then(|v| v.as_str()).map(|s| s.to_string())
}

impl AdminAuth {
    /// The administrator that a verified token's subject names: the subject is
    /// the account's email.
    pub fn from_subject(subject: Option<String>) -> (r: Option<AdminAuth>)
        ensures
            subject is None <==> r is None,
            subject matches Some(s) ==> (r matches Some(a) && a.email@ == s@),
    {
        match subject {
            Some(email) => Some(AdminAuth { email }),
            None => None,
        }
    }

    /// Authenticates a request from its `Authorization` header: a bearer token
    /// signed with `secret` and not expired. Without such a header there is no
    /// administrator.
    pub fn from_authorization(header: Option<&str>, secret: &str) -> (r: Option<AdminAuth>)
        ensures
            r is Some ==> (header matches Some(h) && h@.len() >= 7 && h@.subrange(0, 7)
                == "Bearer "@),
    {
        let h = match header {
            Some(h) => h,
            None => return None,
        };
        let token = match bearer_token(h) {
            Some(t) => t,
            None => return None,
        };
        AdminAuth::from_subject(verified_subject(token, secret))
    }
}

} // verus!
