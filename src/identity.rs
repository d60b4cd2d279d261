use crate::db::{str_opt, Database};
use crate::models::{User, UserInfo};
use crate::token::{fresh, hs256_claims, hs256_token, parse_token};
use vstd::prelude::*;

verus! {

/// The account id that a session token stands for at `now`: the token is
/// present, its signature verifies under the secret and it has not expired.
pub open spec fn session_subject(token: Option<Seq<char>>, secret: Seq<u8>, now: i64) -> Option<i64> {
    match token {
        Some(t) => match fresh(hs256_claims(t, secret), now) {
            Some(c) => Some(c.0),
            None => None,
        },
        None => None,
    }
}

/// The outward view of an account.
pub open spec fn info_of(u: User) -> UserInfo {
    UserInfo { id: u.id, username: u.username, email: u.email }
}

/// Relies on chrono's `Utc::now` and `DateTime::timestamp`: the time now, in
/// whole seconds since the Unix epoch; `Utc::now` panics rather than return a
/// time before the epoch.
#[verifier::external_body]
pub(crate) fn unix_now() -> (r: i64)
    ensures
        r >= 0,
{
    chrono::Utc::now().timestamp()
}

/// The identity behind a session token at `now`, or `None` for an anonymous
/// visitor: no token, a malformed or tampered one, an expired one, or one
/// whose account no longer exists. It never fails otherwise and changes
/// nothing.
pub fn resolve(db: &Database, token: Option<&str>, secret: &[u8], now: i64) -> (r: Option<UserInfo>)
    ensures
        match session_subject(str_opt(token), secret@, now) {
            None => r is None,
            Some(id) => match r {
                Some(info) => exists|i: int|
                    0 <= i < db.users().len() && #[trigger] db.users()[i].id == id && info == info_of(
                        db.users()[i],
                    ),
                None => forall|i: int| 0 <= i < db.users().len() ==> #[trigger] db.users()[i].id != id,
            },
        },
        token is None ==> r is None,
        token matches Some(t) && !t@.contains('.') ==> r is None,
        forall|sub: i64, username: Seq<char>, exp: i64, iat: i64|
            #![trigger hs256_token(sub, username, exp, iat, secret@)]
            token matches Some(t) && 0 <= exp && exp <= now && t@ == hs256_token(
                sub,
                username,
                exp,
                iat,
                secret@,
            ) ==> r is None,
{
    let t = match token {
        Some(t) => t,
        None => {
            return None;
        },
    };
    let claims = match parse_token(t, secret, now) {
        Some(c) => c,
        None => {
            return None;
        },
    };
    match db.find_user_by_id(claims.sub) {
        Some(u) => {
            let ghost k = choose|k: int| 0 <= k < db.users().len() && db.users()[k] == u;
            assert(db.users()[k].id == claims.sub);
            Some(UserInfo::from(u))
        },
        None => None,
    }
}

/// The identity behind a session token, judged at the time read from the
/// clock; see `resolve`.
pub fn get_current_user(db: &Database, token: Option<&str>, secret: &[u8]) -> (r: Option<UserInfo>)
    ensures
        token is None ==> r is None,
        token matches Some(t) && !t@.contains('.') ==> r is None,
        r matches Some(info) ==> exists|i: int|
            0 <= i < db.users().len() && info == info_of(#[trigger] db.users()[i]),
        r is Some ==> token is Some && match hs256_claims(token->0@, secret@) {
            Some(c) => c.0 == r->0.id,
            None => false,
        },
{
    let now = unix_now();
    resolve(db, token, secret, now)
}

} // verus!
