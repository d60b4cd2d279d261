use crate::db::{lemma_username_unique, Database};
use crate::identity::unix_now;
use crate::cookie::{cleared_session_cookie, session_cookie, session_cookie_text};
use crate::models::{Claims, LoginForm, RegisterForm, User};
use crate::password::{hash_password, password_matches, verify_password, MAX_PASSWORD_BYTES};
use crate::token::{hs256_token, issue_token, SESSION_LIFETIME_SECS};
use vstd::prelude::*;
use vstd::string::*;
use vstd::utf8::encode_utf8;

verus! {

/// Why a registration was refused.
#[derive(Debug, PartialEq, Eq, Structural)]
pub enum RegisterError {
    UsernameTooShort,
    PasswordTooShort,
    PasswordMismatch,
    UsernameTaken,
    EmailTaken,
    /// The store or the hasher failed; worth a retry.
    Internal,
}

/// Why a login was refused. Unknown username and wrong password are one
/// outcome, so that usernames cannot be probed.
#[derive(Debug, PartialEq, Eq, Structural)]
pub enum LoginError {
    InvalidCredentials,
    /// The clock or the token signer failed; worth a retry.
    Internal,
}

impl RegisterError {
    /// The message shown to the user.
    pub fn message(&self) -> (r: &'static str)
        ensures
            r@ == register_message(*self),
    {
        match self {
            RegisterError::UsernameTooShort => "Username must be at least 3 characters",
            RegisterError::PasswordTooShort => "Password must be at least 6 characters",
            RegisterError::PasswordMismatch => "Passwords do not match",
            RegisterError::UsernameTaken => "Username is already taken",
            RegisterError::EmailTaken => "Email is already registered",
            RegisterError::Internal => "An error occurred. Please try again.",
        }
    }
}

/// The message shown for each registration refusal.
pub open spec fn register_message(e: RegisterError) -> Seq<char> {
    match e {
        RegisterError::UsernameTooShort => "Username must be at least 3 characters"@,
        RegisterError::PasswordTooShort => "Password must be at least 6 characters"@,
        RegisterError::PasswordMismatch => "Passwords do not match"@,
        RegisterError::UsernameTaken => "Username is already taken"@,
        RegisterError::EmailTaken => "Email is already registered"@,
        RegisterError::Internal => "An error occurred. Please try again."@,
    }
}

impl LoginError {
    /// The message shown to the user.
    pub fn message(&self) -> (r: &'static str)
        ensures
            r@ == login_message(*self),
    {
        match self {
            LoginError::InvalidCredentials => "Invalid username or password",
            LoginError::Internal => "An error occurred. Please try again.",
        }
    }
}

/// The message shown for each login refusal.
pub open spec fn login_message(e: LoginError) -> Seq<char> {
    match e {
        LoginError::InvalidCredentials => "Invalid username or password"@,
        LoginError::Internal => "An error occurred. Please try again."@,
    }
}

/// Length of a text in UTF-8 bytes.
pub open spec fn byte_len(s: Seq<char>) -> nat {
    encode_utf8(s).len()
}

/// The form checks of a registration, in order: username of at least 3
/// bytes, password of at least 6 bytes, confirmation equal to the password.
pub open spec fn registration_check(username: Seq<char>, password: Seq<char>, confirm: Seq<char>) -> Result<(), RegisterError> {
    if byte_len(username) < 3 {
        Err(RegisterError::UsernameTooShort)
    } else if byte_len(password) < 6 {
        Err(RegisterError::PasswordTooShort)
    } else if password != confirm {
        Err(RegisterError::PasswordMismatch)
    } else {
        Ok(())
    }
}

/// Checks a registration form before any store access.
pub fn validate_registration(form: &RegisterForm) -> (r: Result<(), RegisterError>)
    ensures
        r == registration_check(form.username@, form.password@, form.confirm_password@),
{
    if form.username.as_str().as_bytes().len() < 3 {
        return Err(RegisterError::UsernameTooShort);
    }
    if form.password.as_str().as_bytes().len() < 6 {
        return Err(RegisterError::PasswordTooShort);
    }
    if form.password != form.confirm_password {
        return Err(RegisterError::PasswordMismatch);
    }
    Ok(())
}

} // verus!

verus! {

/// Registers an account: the form checks, then a free username, then a free
/// email, then the password hash. Any refusal leaves the store unchanged. A
/// form that passes its checks, with a free username and email, registers
/// whenever an account id is left (and the password fits Argon2's limit).
pub fn handle_register(db: &mut Database, form: &RegisterForm, at: &str) -> (r: Result<User, RegisterError>)
    ensures
        final(db).items() == old(db).items(),
        final(db).item_id_counter() == old(db).item_id_counter(),
        r is Err ==> final(db).users() == old(db).users() && final(db).user_id_counter() == old(
            db,
        ).user_id_counter(),
        r is Ok <==> {
            &&& registration_check(form.username@, form.password@, form.confirm_password@) is Ok
            &&& !old(db).has_username(form.username@)
            &&& !old(db).has_email(form.email@)
            &&& old(db).user_ids_left()
            &&& byte_len(form.password@) <= MAX_PASSWORD_BYTES
        },
        registration_check(form.username@, form.password@, form.confirm_password@) matches Err(e)
            ==> r == Err::<User, RegisterError>(e),
        r == Err::<User, RegisterError>(RegisterError::UsernameTaken) <==> (registration_check(
            form.username@,
            form.password@,
            form.confirm_password@,
        ) is Ok && old(db).has_username(form.username@)),
        r == Err::<User, RegisterError>(RegisterError::EmailTaken) <==> (registration_check(
            form.username@,
            form.password@,
            form.confirm_password@,
        ) is Ok && !old(db).has_username(form.username@) && old(db).has_email(form.email@)),
        r is Ok || r == Err::<User, RegisterError>(RegisterError::Internal) ==> {
            &&& registration_check(form.username@, form.password@, form.confirm_password@) is Ok
            &&& !old(db).has_username(form.username@)
            &&& !old(db).has_email(form.email@)
        },
        r matches Ok(u) ==> {
            &&& u.username@ == form.username@
            &&& u.email@ == form.email@
            &&& u.created_at@ == at@
            &&& password_matches(form.password@, u.password_hash@)
            &&& final(db).users() == old(db).users().push(u)
            &&& u.id == old(db).user_id_counter()
            &&& final(db).user_id_counter() == old(db).user_id_counter() + 1
        },
{
    match validate_registration(form) {
        Err(e) => {
            return Err(e);
        },
        Ok(()) => {},
    }
    if db.username_exists(form.username.as_str()) {
        return Err(RegisterError::UsernameTaken);
    }
    if db.email_exists(form.email.as_str()) {
        return Err(RegisterError::EmailTaken);
    }
    let hash = match hash_password(form.password.as_str()) {
        Some(h) => h,
        None => {
            return Err(RegisterError::Internal);
        },
    };
    match db.create_user(form.username.as_str(), form.email.as_str(), hash.as_str(), at) {
        Some(u) => Ok(u),
        None => Err(RegisterError::Internal),
    }
}

/// Whether an account has this username and the password verifies against
/// its stored hash.
pub open spec fn credentials_ok(users: Seq<User>, username: Seq<char>, password: Seq<char>) -> bool {
    exists|i: int|
        0 <= i < users.len() && #[trigger] users[i].username@ == username && password_matches(
            password,
            users[i].password_hash@,
        )
}

/// Where the client is sent next, and the cookie it is handed.
pub struct SessionRedirect {
    pub location: String,
    pub set_cookie: String,
}

/// Logs in at time `now`: on valid credentials, a session token for the
/// account, expiring one session lifetime after `now`, in a cookie, and a
/// redirect to the item list. Unknown username and wrong password give the
/// same refusal. Valid credentials fail only where `now` is so late that the
/// expiry would not fit.
pub fn handle_login_at(db: &Database, form: &LoginForm, secret: &[u8], now: i64) -> (r: Result<SessionRedirect, LoginError>)
    ensures
        r == Err::<SessionRedirect, LoginError>(LoginError::InvalidCredentials) <==> !credentials_ok(
            db.users(),
            form.username@,
            form.password@,
        ),
        r == Err::<SessionRedirect, LoginError>(LoginError::Internal) <==> credentials_ok(
            db.users(),
            form.username@,
            form.password@,
        ) && now > i64::MAX - SESSION_LIFETIME_SECS,
        credentials_ok(db.users(), form.username@, form.password@) && now <= i64::MAX
            - SESSION_LIFETIME_SECS ==> r is Ok,
        r matches Ok(s) ==> {
            &&& s.location@ == "/items"@
            &&& exists|i: int|
                0 <= i < db.users().len() && #[trigger] db.users()[i].username@ == form.username@
                    && password_matches(form.password@, db.users()[i].password_hash@)
                    && s.set_cookie@ == session_cookie_text(
                    hs256_token(
                        db.users()[i].id,
                        db.users()[i].username@,
                        (now + SESSION_LIFETIME_SECS) as i64,
                        now,
                        secret@,
                    ),
                    "86400"@,
                )
        },
{
    let user = match db.find_user_by_username(form.username.as_str()) {
        Some(u) => u,
        None => {
            return Err(LoginError::InvalidCredentials);
        },
    };
    let ghost k = choose|k: int| 0 <= k < db.users().len() && db.users()[k] == user;
    proof {
        assert forall|i: int|
            0 <= i < db.users().len() && #[trigger] db.users()[i].username@ == form.username@ implies i == k by {
            lemma_username_unique(db.users(), i, k);
        }
    }
    if !verify_password(form.password.as_str(), user.password_hash.as_str()) {
        return Err(LoginError::InvalidCredentials);
    }
    assert(db.users()[k].username@ == form.username@);
    if now > i64::MAX - SESSION_LIFETIME_SECS {
        return Err(LoginError::Internal);
    }
    let claims = Claims::for_session(user.id, user.username.as_str(), now);
    let token = issue_token(&claims, secret);
    Ok(SessionRedirect { location: String::from_str("/items"), set_cookie: session_cookie(token.as_str()) })
}

/// Logs in at the time read from the clock; see `handle_login_at`. Valid
/// credentials are refused only where the clock reads so late that the
/// session expiry would not fit.
pub fn handle_login(db: &Database, form: &LoginForm, secret: &[u8]) -> (r: Result<SessionRedirect, LoginError>)
    ensures
        r == Err::<SessionRedirect, LoginError>(LoginError::InvalidCredentials) <==> !credentials_ok(
            db.users(),
            form.username@,
            form.password@,
        ),
        r is Ok ==> credentials_ok(db.users(), form.username@, form.password@),
        r matches Ok(s) ==> s.location@ == "/items"@ && exists|i: int, exp: i64, now: i64|
            #![trigger hs256_token(db.users()[i].id, db.users()[i].username@, exp, now, secret@)]
            0 <= i < db.users().len() && db.users()[i].username@ == form.username@ && password_matches(
                form.password@,
                db.users()[i].password_hash@,
            ) && exp == now + SESSION_LIFETIME_SECS && s.set_cookie@ == session_cookie_text(
                hs256_token(db.users()[i].id, db.users()[i].username@, exp, now, secret@),
                "86400"@,
            ),
{
    let now = unix_now();
    let r = handle_login_at(db, form, secret, now);
    proof {
        if r is Ok {
            let i = choose|i: int|
                0 <= i < db.users().len() && #[trigger] db.users()[i].username@ == form.username@
                    && password_matches(form.password@, db.users()[i].password_hash@)
                    && r->Ok_0.set_cookie@ == session_cookie_text(
                    hs256_token(
                        db.users()[i].id,
                        db.users()[i].username@,
                        (now + SESSION_LIFETIME_SECS) as i64,
                        now,
                        secret@,
                    ),
                    "86400"@,
                );
            let exp = (now + SESSION_LIFETIME_SECS) as i64;
            assert(hs256_token(db.users()[i].id, db.users()[i].username@, exp, now, secret@) == hs256_token(db.users()[i].id, db.users()[i].username@, (now + SESSION_LIFETIME_SECS) as i64, now, secret@));
        }
    }
    r
}

/// Ends the session: a redirect home with a cookie that clears the token.
pub fn handle_logout() -> (r: SessionRedirect)
    ensures
        r.location@ == "/"@,
        r.set_cookie@ == session_cookie_text(Seq::empty(), "0"@),
{
    SessionRedirect { location: String::from_str("/"), set_cookie: cleared_session_cookie() }
}

} // verus!
