//! Password hashing (bcrypt) and token signing (HS256 JSON Web Tokens).
use vstd::prelude::*;

use crate::middleware::auth::Claims;
use jsonwebtoken::{decode, DecodingKey, Validation};
use serde_json::Value;
use std::str::from_utf8;

verus! {

/// What `bcrypt::verify(password, hash)` returns: `Some(b)` for `Ok(b)`,
/// `None` for an error (a malformed hash).  It depends on its arguments alone.
pub uninterp spec fn bcrypt_verdict(password: Seq<char>, hash: Seq<char>) -> Option<bool>;

/// The compact serialisation that `jsonwebtoken::encode` produces for the
/// default header (HS256) and the claims `{"sub": sub, "exp": exp}`, signed
/// with the HMAC secret `secret`.
pub uninterp spec fn hs256_token(sub: Seq<char>, exp: int, secret: Seq<u8>) -> Seq<char>;

/// What `jsonwebtoken::decode` gives for the compact token `token` (its
/// bytes) and the HMAC secret `secret`, with the default validation (HS256)
/// except the expiry check: the subject and expiry of the claims when the
/// signature holds and the claims carry a string `sub` and an unsigned
/// `exp`, `None` otherwise.  It depends on its arguments alone.
pub uninterp spec fn hs256_claims(token: Seq<u8>, secret: Seq<u8>) -> Option<(Seq<char>, int)>;

/// The text of the error with which decoding `token` under `secret` fails.
pub uninterp spec fn hs256_decode_error(token: Seq<u8>, secret: Seq<u8>) -> Seq<char>;

/// Whether `c` may appear in a compact token: a character of the URL-safe
/// base64 alphabet or the `.` that separates the parts.
pub open spec fn is_token_char(c: char) -> bool {
    ||| ('A' <= c && c <= 'Z')
    ||| ('a' <= c && c <= 'z')
    ||| ('0' <= c && c <= '9')
    ||| c == '-'
    ||| c == '_'
    ||| c == '.'
}

/// Whether every character of `t` may appear in a compact token.
pub open spec fn is_token_text(t: Seq<char>) -> bool {
    forall|i: int| 0 <= i < t.len() ==> is_token_char(#[trigger] t[i])
}

/// The bytes of a text of ASCII characters.
pub open spec fn ascii_bytes(t: Seq<char>) -> Seq<u8> {
    Seq::new(t.len(), |i: int| t[i] as u8)
}

/// Calls `bcrypt::verify(password, hash)`, an `Err` becoming `None`.
#[verifier::external_body]
pub(crate) fn bcrypt_verify(password: &str, hash: &str) -> (res: Option<bool>)
    ensures
        res == bcrypt_verdict(password@, hash@),
{
    match bcrypt::verify(password, hash) {
        Ok(b) => Some(b),
        Err(_) => None,
    }
}

/// Calls `bcrypt::hash(password, bcrypt::DEFAULT_COST)`, the error becoming
/// its message.  The salt is drawn from the operating system, so the hash is
/// not a function of the password; what the source shows of every hash it
/// returns is stated: it has the form `$2b$12$` followed by 53 characters
/// (22 of salt, 31 of digest), and `bcrypt::verify` accepts the password
/// against it (the same cost and salt give the same digest).  The call fails
/// only when the operating system gives no randomness (the cost is valid), and
/// that error displays as `Rand error: ` followed by the cause.
#[verifier::external_body]
pub(crate) fn bcrypt_hash(password: &str) -> (res: Result<String, String>)
    ensures
        res matches Err(e) ==> e@.len() >= 12 && e@.subrange(0, 12) == "Rand error: "@,
        res matches Ok(h) ==> bcrypt_verdict(password@, h@) == Some(true),
        res matches Ok(h) ==> h@.len() == 60,
        res matches Ok(h) ==> h@.subrange(0, 7) == "$2b$12$"@,
{
    match bcrypt::hash(password, bcrypt::DEFAULT_COST) {
        Ok(h) => Ok(h),
        Err(e) => Err(e.to_string()),
    }
}

/// Calls `jsonwebtoken::encode(&Header::default(), claims,
/// &EncodingKey::from_secret(secret))` with the claims as the JSON object
/// `{"sub": .., "exp": ..}`.  The source shows that this call cannot fail:
/// the default header asks for HS256, which matches a key made by
/// `from_secret`, the claims always serialise, and HMAC signing has no error.
/// The token is three URL-safe base64 parts joined by `.`, and decoding it
/// with the same secret (see `hs256_claims`) verifies the signature it was
/// given and yields the same subject and expiry.
#[verifier::external_body]
pub(crate) fn encode_hs256(claims: &Claims, secret: &[u8]) -> (res: Result<String, String>)
    ensures
        res is Ok,
        res matches Ok(t) ==> t@ == hs256_token(claims.sub@, claims.exp as int, secret@),
        res matches Ok(t) ==> is_token_text(t@),
        res matches Ok(t) ==> hs256_claims(ascii_bytes(t@), secret@) == Some(
            (claims.sub@, claims.exp as int),
        ),
{
    let mut object = serde_json::Map::new();
    object.insert("sub".to_string(), serde_json::Value::from(claims.sub.as_str()));
    object.insert("exp".to_string(), serde_json::Value::from(claims.exp));
    let header = jsonwebtoken::Header::default();
    match jsonwebtoken::encode(&header, &object, &jsonwebtoken::EncodingKey::from_secret(secret)) {
        Ok(t) => Ok(t),
        Err(e) => Err(e.to_string()),
    }
}

/// Calls `jsonwebtoken::decode::<serde_json::Value>` on the token (read as
/// UTF-8) with `DecodingKey::from_secret(secret)` and `Validation::default()`
/// whose expiry check is turned off, then reads the string `sub` and the
/// unsigned `exp` of the claims.  Without the expiry check the call does not
/// read the clock, so its outcome is a function of the token and the secret
/// (`hs256_claims`, `hs256_decode_error`).  The token is ASCII, so reading it
/// as UTF-8 cannot fail.
#[verifier::external_body]
pub(crate) fn decode_hs256(token: &[u8], secret: &[u8]) -> (res: Result<Claims, String>)
    requires
        forall|i: int| 0 <= i < token@.len() ==> token@[i] < 128,
    ensures
        res is Ok <==> hs256_claims(token@, secret@) is Some,
        res matches Ok(c) ==> hs256_claims(token@, secret@) == Some((c.sub@, c.exp as int)),
        res matches Err(m) ==> m@ == hs256_decode_error(token@, secret@),
{
    let text = from_utf8(token).unwrap_or("");
    let mut validation = Validation::default();
    validation.validate_exp = false;
    let data = match decode::<Value>(text, &DecodingKey::from_secret(secret), &validation) {
        Ok(d) => d,
        Err(e) => return Err(e.to_string()),
    };
    match (data.claims.get("sub"), data.claims.get("exp").and_then(Value::as_u64)) {
        (Some(Value::String(sub)), Some(exp)) => match usize::try_from(exp) {
            Ok(exp) => Ok(Claims { sub: sub.clone(), exp }),
            Err(e) => Err(e.to_string()),
        },
        _ => Err("JSON error: the claims lack a string `sub` or an unsigned `exp`".to_string()),
    }
}

} // verus!
