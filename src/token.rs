use crate::models::Claims;
use jsonwebtoken::{DecodingKey, EncodingKey, Header, Validation};
use vstd::prelude::*;

verus! {

/// Lifetime of a login session, in seconds.
pub const SESSION_LIFETIME_SECS: i64 = 86400;

/// The HS256 token that jsonwebtoken makes of the claim set
/// `{sub, username, exp, iat}` under the signing secret.
pub uninterp spec fn hs256_token(
    sub: i64,
    username: Seq<char>,
    exp: i64,
    iat: i64,
    secret: Seq<u8>,
) -> Seq<char>;

/// The claim set that jsonwebtoken reads from a token under the signing
/// secret, the signature checked and the expiry not: `None` where the token
/// is malformed, its signature does not verify, or a claim is missing.
pub uninterp spec fn hs256_claims(token: Seq<char>, secret: Seq<u8>) -> Option<
    (i64, Seq<char>, i64, i64),
>;

/// The claim set as plain values, in the order `(sub, username, exp, iat)`.
pub open spec fn claims_view(c: Claims) -> (i64, Seq<char>, i64, i64) {
    (c.sub, c.username@, c.exp, c.iat)
}

/// An optional claim set as plain values.
pub open spec fn opt_claims_view(c: Option<Claims>) -> Option<(i64, Seq<char>, i64, i64)> {
    match c {
        Some(c) => Some(claims_view(c)),
        None => None,
    }
}

/// The claims of a decoded token that are still valid at `now`: expiry is
/// strict, with no allowance for clock skew.
pub open spec fn fresh(decoded: Option<(i64, Seq<char>, i64, i64)>, now: i64) -> Option<
    (i64, Seq<char>, i64, i64),
> {
    match decoded {
        Some(c) => if now < c.2 {
            Some(c)
        } else {
            None
        },
        None => None,
    }
}

/// Relies on jsonwebtoken's `encode` with the default header (HS256) and an
/// `EncodingKey::from_secret`, over the claims as a JSON object. It cannot
/// fail here: key and header share the HMAC family, a map of integers and a
/// string always serialises, and HMAC signing accepts any key.
#[verifier::external_body]
fn hs256_encode(claims: &Claims, secret: &[u8]) -> (r: String)
    ensures
        r@ == hs256_token(
            claims.sub,
            claims.username@,
            claims.exp,
            claims.iat,
            secret@,
        ),
{
    let mut m = serde_json::Map::new();
    m.insert("sub".to_string(), claims.sub.into());
    m.insert("username".to_string(), claims.username.clone().into());
    m.insert("exp".to_string(), claims.exp.into());
    m.insert("iat".to_string(), claims.iat.into());
    match jsonwebtoken::encode(&Header::default(), &m, &EncodingKey::from_secret(secret)) {
        Ok(t) => t,
        Err(_) => String::new(),
    }
}

/// Relies on jsonwebtoken's `decode` under `DecodingKey::from_secret` and the
/// default validation (HS256, `exp` present) with the expiry check switched
/// off. An `exp` that does not read as a `u64` (a negative one) is refused. A
/// token needs two dots to be read at all; a token that `encode` made
/// under the same secret, with an `exp` that reads as a `u64`, reads back.
#[verifier::external_body]
fn hs256_decode(token: &str, secret: &[u8]) -> (r: Option<Claims>)
    ensures
        opt_claims_view(r) == hs256_claims(token@, secret@),
        r matches Some(c) ==> 0 <= c.exp,
        !token@.contains('.') ==> r is None,
        forall|sub: i64, username: Seq<char>, exp: i64, iat: i64|
            0 <= exp && token@ == #[trigger] hs256_token(sub, username, exp, iat, secret@)
                ==> opt_claims_view(r) == Some((sub, username, exp, iat)),
{
    let mut v = Validation::default();
    v.validate_exp = false;
    let c = jsonwebtoken::decode::<serde_json::Value>(token, &DecodingKey::from_secret(secret), &v).ok()?.claims;
    Some(Claims {
        sub: c.get("sub")?.as_i64()?,
        username: c.get("username")?.as_str()?.to_string(),
        exp: c.get("exp")?.as_i64()?,
        iat: c.get("iat")?.as_i64()?,
    })
}

impl Claims {
    /// The claims of a login session for an account, issued at `now` and
    /// expiring one session lifetime later.
    pub fn for_session(user_id: i64, username: &str, now: i64) -> (r: Claims)
        requires
            now <= i64::MAX - SESSION_LIFETIME_SECS,
        ensures
            r.sub == user_id,
            r.username@ == username@,
            r.iat == now,
            r.exp == now + SESSION_LIFETIME_SECS,
    {
        Claims {
            sub: user_id,
            username: username.to_owned(),
            exp: now + SESSION_LIFETIME_SECS,
            iat: now,
        }
    }
}

/// Signs a claim set into a compact token.
pub fn issue_token(claims: &Claims, secret: &[u8]) -> (r: String)
    ensures
        r@ == hs256_token(
            claims.sub,
            claims.username@,
            claims.exp,
            claims.iat,
            secret@,
        ),
{
    hs256_encode(claims, secret)
}

/// Keeps decoded claims only while `now` is before their expiry.
pub fn fresh_claims(decoded: Option<Claims>, now: i64) -> (r: Option<Claims>)
    ensures
        opt_claims_view(r) == fresh(opt_claims_view(decoded), now),
        r matches Some(c) ==> decoded == Some(c),
{
    match decoded {
        Some(c) => if now < c.exp {
            Some(c)
        } else {
            None
        },
        None => None,
    }
}

/// Reads a token under the signing secret and keeps its claims only if the
/// signature verifies and `now` is before the expiry. A token issued under
/// the same secret with expiry `exp` reads back before `exp` and is refused
/// from `exp` on.
pub fn parse_token(token: &str, secret: &[u8], now: i64) -> (r: Option<Claims>)
    ensures
        opt_claims_view(r) == fresh(hs256_claims(token@, secret@), now),
        !token@.contains('.') ==> r is None,
        forall|sub: i64, username: Seq<char>, exp: i64, iat: i64|
            0 <= exp && token@ == #[trigger] hs256_token(sub, username, exp, iat, secret@) ==> {
                &&& (now < exp ==> opt_claims_view(r) == Some((sub, username, exp, iat)))
                &&& (exp <= now ==> r is None)
            },
{
    fresh_claims(hs256_decode(token, secret), now)
}

} // verus!
