use vstd::prelude::*;
use vstd::string::*;

verus! {

/// A `Set-Cookie` value for the session cookie: scoped to the whole
/// application, out of reach of scripts, never sent cross-site.
pub open spec fn session_cookie_text(value: Seq<char>, max_age: Seq<char>) -> Seq<char> {
    "token="@ + value + "; Path=/; HttpOnly; SameSite=Strict; Max-Age="@ + max_age
}

/// The `Set-Cookie` value that hands a session token to the client, living
/// as long as the session (one day).
pub fn session_cookie(token: &str) -> (r: String)
    ensures
        r@ == session_cookie_text(token@, "86400"@),
{
    let mut s = String::from_str("token=");
    s.append(token);
    s.append("; Path=/; HttpOnly; SameSite=Strict; Max-Age=");
    s.append("86400");
    s
}

/// The `Set-Cookie` value that ends a session: an empty token that expires
/// at once.
pub fn cleared_session_cookie() -> (r: String)
    ensures
        r@ == session_cookie_text(Seq::empty(), "0"@),
{
    let mut s = String::from_str("token=");
    s.append("; Path=/; HttpOnly; SameSite=Strict; Max-Age=");
    s.append("0");
    s
}

} // verus!
