//! Signed bearer tokens.
//!
//! A token carries four claims — subject, email, issued-at and
//! expires-at, all epoch seconds — signed with a process-configured
//! symmetric secret.  Signing and signature verification are the work of
//! the `jsonwebtoken` crate; what a given token decodes to under a given
//! secret is named, not restated, here.  The expiry judgement is made in
//! this library: a token whose expires-at is not in the future is
//! rejected.

use vstd::prelude::*;
use vstd::string::StringExecFns;
use crate::ids::spec_uuid_string;

verus! {

/// The claims carried by a bearer token.
#[derive(Clone, Debug)]
pub struct Claims {
    /// Subject: the textual form of the principal identifier.
    pub sub: String,
    /// The principal's email.
    pub email: String,
    /// Expiration time, epoch seconds.
    pub exp: i64,
    /// Issued-at time, epoch seconds.
    pub iat: i64,
}

/// The mathematical content of a set of claims.
pub struct ClaimsView {
    pub sub: Seq<char>,
    pub email: Seq<char>,
    pub exp: int,
    pub iat: int,
}

impl View for Claims {
    type V = ClaimsView;

    open spec fn view(&self) -> ClaimsView {
        ClaimsView { sub: self.sub@, email: self.email@, exp: self.exp as int, iat: self.iat as int }
    }
}

/// The claims a token decodes to under a secret, where its signature
/// verifies and its claims are well formed; `None` otherwise.  A function
/// of the token and the secret alone.
pub uninterp spec fn token_claims(token: Seq<char>, secret: Seq<char>) -> Option<ClaimsView>;

/// The token that signing a set of claims with a secret yields; `None`
/// where signing fails.  A function of the claims and the secret alone.
pub uninterp spec fn encoded_token(claims: ClaimsView, secret: Seq<char>) -> Option<Seq<char>>;

/// Verifies a token's signature and decodes its claims.
///
/// Relies on `jsonwebtoken::decode` with expiry validation turned off: it
/// verifies the HMAC-SHA256 signature against the secret and decodes the
/// claims; the outcome depends on the token and the secret alone.  The
/// expiry judgement is made by the caller, not here.
#[verifier::external_body]
fn decode_claims(token: &str, secret: &str) -> (r: Option<Claims>)
    ensures
        r is Some <==> token_claims(token@, secret@) is Some,
        r matches Some(c) ==> c@ == token_claims(token@, secret@)->0,
{
    let mut validation = jsonwebtoken::Validation::default();
    validation.validate_exp = false;
    validation.required_spec_claims = std::collections::HashSet::new();
    let key = jsonwebtoken::DecodingKey::from_secret(secret.as_bytes());
    let data = jsonwebtoken::decode::<serde_json::Value>(token, &key, &validation).ok()?;
    Some(Claims {
        sub: data.claims.get("sub")?.as_str()?.to_string(),
        email: data.claims.get("email")?.as_str()?.to_string(),
        exp: data.claims.get("exp")?.as_i64()?,
        iat: data.claims.get("iat")?.as_i64()?,
    })
}

/// Signs a set of claims with a secret.
///
/// Relies on `jsonwebtoken::encode`: serializes the four claims and signs
/// them with HMAC-SHA256; the outcome depends on the claims and the
/// secret alone.
#[verifier::external_body]
fn encode_claims(claims: &Claims, secret: &str) -> (r: Option<String>)
    ensures
        r is Some <==> encoded_token(claims@, secret@) is Some,
        r matches Some(t) ==> t@ == encoded_token(claims@, secret@)->0,
{
    let mut m = serde_json::Map::new();
    m.insert("sub".to_string(), serde_json::Value::String(claims.sub.clone()));
    m.insert("email".to_string(), serde_json::Value::String(claims.email.clone()));
    m.insert("exp".to_string(), serde_json::Value::from(claims.exp));
    m.insert("iat".to_string(), serde_json::Value::from(claims.iat));
    let key = jsonwebtoken::EncodingKey::from_secret(secret.as_bytes());
    jsonwebtoken::encode(&jsonwebtoken::Header::default(), &serde_json::Value::Object(m), &key).ok()
}

/// Addition on epoch seconds, saturating at the representable range.
pub open spec fn sat_add_i64(a: int, b: int) -> int {
    if a + b > i64::MAX {
        i64::MAX as int
    } else if a + b < i64::MIN {
        i64::MIN as int
    } else {
        a + b
    }
}

/// The claims a token issued at `now` for a principal carries.
pub open spec fn spec_claims_for(user_id: u128, email: Seq<char>, now: int, validity: int) -> ClaimsView {
    ClaimsView {
        sub: spec_uuid_string(user_id),
        email: email,
        exp: sat_add_i64(now, validity),
        iat: now,
    }
}

/// What validating a token at time `now` yields: the decoded claims,
/// provided the signature verifies and the expires-at is in the future.
pub open spec fn spec_validate_token(secret: Seq<char>, token: Seq<char>, now: int) -> Option<
    ClaimsView,
> {
    match token_claims(token, secret) {
        Some(c) => if c.exp > now {
            Some(c)
        } else {
            None
        },
        None => None,
    }
}

/// The token configuration: the symmetric signing secret and the validity
/// window in seconds.
#[derive(Clone, Debug)]
pub struct JwtConfig {
    pub secret: String,
    pub expiration: i64,
}

impl Default for JwtConfig {
    /// The built-in configuration: a placeholder secret and a 24-hour
    /// validity window.
    fn default() -> (c: JwtConfig)
        ensures
            c.secret@ == "secretkey"@,
            c.expiration == 86400,
    {
        JwtConfig { secret: String::from_str("secretkey"), expiration: 24 * 60 * 60 }
    }
}

impl JwtConfig {
    pub fn new(secret: String, expiration: i64) -> (c: JwtConfig)
        ensures
            c.secret == secret,
            c.expiration == expiration,
    {
        JwtConfig { secret, expiration }
    }

    /// Issues a token for a principal at time `now`: subject is the
    /// textual principal identifier, expires-at lies one validity window
    /// past `now`.
    pub fn generate_token(&self, user_id: u128, email: &str, now: i64) -> (r: Option<String>)
        ensures
            ({
                let c = spec_claims_for(user_id, email@, now as int, self.expiration as int);
                &&& r is Some <==> encoded_token(c, self.secret@) is Some
                &&& (r matches Some(t) ==> t@ == encoded_token(c, self.secret@)->0)
            }),
    {
        let exp = match now.checked_add(self.expiration) {
            Some(e) => e,
            None => if self.expiration >= 0 {
                i64::MAX
            } else {
                i64::MIN
            },
        };
        let claims = Claims {
            sub: crate::ids::format_uuid(user_id),
            email: email.to_owned(),
            exp,
            iat: now,
        };
        encode_claims(&claims, self.secret.as_str())
    }

    /// Validates a token at time `now` and extracts its claims; a token
    /// whose expires-at has passed is rejected.
    pub fn validate_token(&self, token: &str, now: i64) -> (r: Option<Claims>)
        ensures
            r is Some <==> spec_validate_token(self.secret@, token@, now as int) is Some,
            r matches Some(c) ==> c@ == spec_validate_token(self.secret@, token@, now as int)->0,
    {
        match decode_claims(token, self.secret.as_str()) {
            Some(c) => if c.exp > now {
                Some(c)
            } else {
                None
            },
            None => None,
        }
    }
}

} // verus!
