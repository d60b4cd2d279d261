use crud_auth::auth::{
    handle_login, handle_login_at, handle_logout, handle_register, validate_registration,
    LoginError, RegisterError,
};
use crud_auth::cookie::{cleared_session_cookie, session_cookie};
use crud_auth::db::Database;
use crud_auth::identity::{get_current_user, resolve};
use crud_auth::models::{Claims, LoginForm, RegisterForm};
use crud_auth::password::{hash_password, verify_password};
use crud_auth::token::{fresh_claims, issue_token, parse_token, SESSION_LIFETIME_SECS};

const AT: &str = "2024-01-01 00:00:00";
const SECRET: &[u8] = b"test-secret";
const NOW: i64 = 1_700_000_000;

fn register_form(username: &str, email: &str, password: &str, confirm: &str) -> RegisterForm {
    RegisterForm {
        username: username.to_string(),
        email: email.to_string(),
        password: password.to_string(),
        confirm_password: confirm.to_string(),
    }
}

fn login_form(username: &str, password: &str) -> LoginForm {
    LoginForm { username: username.to_string(), password: password.to_string() }
}

fn token_of(cookie: &str) -> String {
    let rest = cookie.strip_prefix("token=").expect("token cookie");
    rest.split(';').next().unwrap_or("").to_string()
}

#[test]
fn hash_then_verify_and_salt_freshness() {
    let h1 = hash_password("hunter22").expect("hash");
    let h2 = hash_password("hunter22").expect("hash");
    assert_ne!(h1, h2);
    assert!(h1.starts_with("$argon2"));
    assert!(verify_password("hunter22", &h1));
    assert!(verify_password("hunter22", &h2));
    assert!(!verify_password("hunter23", &h1));
}

#[test]
fn malformed_hash_fails_closed() {
    assert!(!verify_password("anything", "not-a-phc-string"));
    assert!(!verify_password("anything", ""));
    assert!(!verify_password("anything", "anything"));
}

#[test]
fn registration_form_checks() {
    assert_eq!(
        validate_registration(&register_form("ab", "bad@example.com", "short", "mismatch")),
        Err(RegisterError::UsernameTooShort)
    );
    assert_eq!(
        validate_registration(&register_form("abc", "a@x.com", "short", "short")),
        Err(RegisterError::PasswordTooShort)
    );
    assert_eq!(
        validate_registration(&register_form("abc", "a@x.com", "password1", "password2")),
        Err(RegisterError::PasswordMismatch)
    );
    assert_eq!(validate_registration(&register_form("abc", "a@x.com", "secret", "secret")), Ok(()));
    // Byte lengths: two two-byte characters make four bytes.
    assert_eq!(validate_registration(&register_form("éé", "a@x.com", "secret", "secret")), Ok(()));
    assert_eq!(RegisterError::PasswordMismatch.message(), "Passwords do not match");
    assert_eq!(LoginError::InvalidCredentials.message(), "Invalid username or password");
}

#[test]
fn handle_register_rejects_invalid_form() {
    let mut db = Database::new();
    let form = register_form("ab", "bad@example.com", "short", "mismatch");
    assert_eq!(handle_register(&mut db, &form, AT).err(), Some(RegisterError::UsernameTooShort));
    assert!(!db.username_exists("ab"));
}

#[test]
fn handle_register_success_redirects() {
    let mut db = Database::new();
    let form = register_form("alice", "alice@example.com", "password123", "password123");
    let user = handle_register(&mut db, &form, AT).expect("registered");
    assert_eq!(user.username, "alice");
    assert!(verify_password("password123", &user.password_hash));
    assert!(db.username_exists("alice"));
}

#[test]
fn register_refuses_taken_username_and_email() {
    let mut db = Database::new();
    db.create_user("alice", "alice@x.com", "h", AT).unwrap();
    let taken_name = register_form("alice", "other@x.com", "password123", "password123");
    assert_eq!(handle_register(&mut db, &taken_name, AT).err(), Some(RegisterError::UsernameTaken));
    let taken_mail = register_form("alicia", "alice@x.com", "password123", "password123");
    assert_eq!(handle_register(&mut db, &taken_mail, AT).err(), Some(RegisterError::EmailTaken));
    assert!(!db.username_exists("alicia"));
}

#[test]
fn handle_login_invalid_password_renders_form() {
    let mut db = Database::new();
    let hash = hash_password("correct-password").expect("hash");
    db.create_user("bob", "bob@example.com", &hash, AT).expect("create user");
    let r = handle_login_at(&db, &login_form("bob", "wrong"), SECRET, NOW);
    assert_eq!(r.err(), Some(LoginError::InvalidCredentials));
    let unknown = handle_login_at(&db, &login_form("nobody", "wrong"), SECRET, NOW);
    assert_eq!(unknown.err(), Some(LoginError::InvalidCredentials));
}

#[test]
fn handle_login_sets_cookie_and_redirects() {
    let mut db = Database::new();
    let hash = hash_password("secret").expect("hash");
    db.create_user("carol", "carol@example.com", &hash, AT).expect("create user");
    let r = handle_login(&db, &login_form("carol", "secret"), SECRET).expect("logged in");
    assert_eq!(r.location, "/items");
    assert!(r.set_cookie.contains("token="));
    assert!(r.set_cookie.ends_with("; Path=/; HttpOnly; SameSite=Strict; Max-Age=86400"));
    let info = get_current_user(&db, Some(&token_of(&r.set_cookie)), SECRET).expect("identity");
    assert_eq!(info.username, "carol");
}

#[test]
fn handle_logout_clears_cookie() {
    let r = handle_logout();
    assert_eq!(r.location, "/");
    assert!(r.set_cookie.contains("Max-Age=0"));
    assert_eq!(r.set_cookie, "token=; Path=/; HttpOnly; SameSite=Strict; Max-Age=0");
}

#[test]
fn cookie_texts() {
    assert_eq!(session_cookie("abc"), "token=abc; Path=/; HttpOnly; SameSite=Strict; Max-Age=86400");
    assert_eq!(cleared_session_cookie(), "token=; Path=/; HttpOnly; SameSite=Strict; Max-Age=0");
}

#[test]
fn token_round_trip_and_strict_expiry() {
    let claims = Claims::for_session(7, "alice", NOW);
    assert_eq!(claims.exp, NOW + SESSION_LIFETIME_SECS);
    assert_eq!(claims.iat, NOW);
    let token = issue_token(&claims, SECRET);
    assert_eq!(token.matches('.').count(), 2);
    assert_ne!(token, "alice");
    let back = parse_token(&token, SECRET, NOW).expect("valid");
    assert_eq!((back.sub, back.username.as_str(), back.exp, back.iat), (7, "alice", NOW + 86400, NOW));
    assert!(parse_token(&token, SECRET, NOW + 86399).is_some());
    assert!(parse_token(&token, SECRET, NOW + 86400).is_none());
    assert!(parse_token(&token, SECRET, NOW + 90000).is_none());
}

#[test]
fn token_from_other_secret_is_refused() {
    let claims = Claims::for_session(7, "alice", NOW);
    let token = issue_token(&claims, b"secret-a");
    assert!(parse_token(&token, b"secret-a", NOW).is_some());
    assert!(parse_token(&token, b"secret-b", NOW).is_none());
    // A tampered signature is refused as well.
    let mut tampered = token.clone();
    let last = tampered.pop().unwrap();
    tampered.push(if last == 'A' { 'B' } else { 'A' });
    assert!(parse_token(&tampered, b"secret-a", NOW).is_none());
    assert!(parse_token("not a token", b"secret-a", NOW).is_none());
}

#[test]
fn fresh_claims_is_strict() {
    let c = Claims { sub: 1, username: "u".to_string(), exp: 100, iat: 0 };
    assert!(fresh_claims(Some(c), 99).is_some());
    let c = Claims { sub: 1, username: "u".to_string(), exp: 100, iat: 0 };
    assert!(fresh_claims(Some(c), 100).is_none());
    assert!(fresh_claims(None, 0).is_none());
}

#[test]
fn resolve_gives_none_for_each_anonymous_case() {
    let mut db = Database::new();
    let u = db.create_user("dave", "dave@x.com", "h", AT).unwrap();
    let good = issue_token(&Claims::for_session(u.id, "dave", NOW), SECRET);
    let info = resolve(&db, Some(&good), SECRET, NOW).expect("identity");
    assert_eq!((info.id, info.username.as_str(), info.email.as_str()), (u.id, "dave", "dave@x.com"));

    assert!(resolve(&db, None, SECRET, NOW).is_none());
    assert!(resolve(&db, Some("garbage"), SECRET, NOW).is_none());
    assert!(resolve(&db, Some(&good), SECRET, NOW + SESSION_LIFETIME_SECS).is_none());
    let orphan = issue_token(&Claims::for_session(u.id + 50, "ghost", NOW), SECRET);
    assert!(resolve(&db, Some(&orphan), SECRET, NOW).is_none());
}

#[test]
fn register_login_resolve_end_to_end() {
    let mut db = Database::new();
    let form = register_form("alice", "alice@x.com", "password123", "password123");
    handle_register(&mut db, &form, AT).expect("registered");

    let ok = handle_login_at(&db, &login_form("alice", "password123"), SECRET, NOW).expect("login");
    let token = token_of(&ok.set_cookie);
    let who = resolve(&db, Some(&token), SECRET, NOW).expect("identity");
    assert_eq!(who.username, "alice");

    let bad = handle_login_at(&db, &login_form("alice", "wrongpw"), SECRET, NOW);
    assert_eq!(bad.err(), Some(LoginError::InvalidCredentials));
}

#[test]
fn login_with_late_clock_is_internal_error() {
    let mut db = Database::new();
    let hash = hash_password("password123").expect("hash");
    db.create_user("frank", "frank@x.com", &hash, AT).unwrap();
    let late = handle_login_at(&db, &login_form("frank", "password123"), SECRET, i64::MAX - 10);
    assert_eq!(late.err(), Some(LoginError::Internal));
    let wrong = handle_login_at(&db, &login_form("frank", "nope"), SECRET, i64::MAX - 10);
    assert_eq!(wrong.err(), Some(LoginError::InvalidCredentials));
}

#[test]
fn login_cookie_carries_issued_token() {
    let mut db = Database::new();
    let hash = hash_password("password123").expect("hash");
    let u = db.create_user("gina", "gina@x.com", &hash, AT).unwrap();
    let ok = handle_login_at(&db, &login_form("gina", "password123"), SECRET, NOW).expect("login");
    let expected = issue_token(&Claims::for_session(u.id, "gina", NOW), SECRET);
    assert_eq!(ok.set_cookie, session_cookie(&expected));
}

#[test]
fn logout_then_request_is_anonymous() {
    let mut db = Database::new();
    let u = db.create_user("erin", "erin@x.com", "h", AT).unwrap();
    let token = issue_token(&Claims::for_session(u.id, "erin", NOW), SECRET);
    assert!(resolve(&db, Some(&token), SECRET, NOW).is_some());
    let cleared = token_of(&handle_logout().set_cookie);
    assert_eq!(cleared, "");
    assert!(resolve(&db, Some(&cleared), SECRET, NOW).is_none());
}
