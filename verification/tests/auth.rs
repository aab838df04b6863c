use libretunes::auth::{
    check_admin, check_auth, get_logged_in_user, get_user, login_answer, login_form_result, require_admin,
    require_auth, signup_credentials, signup_disabled, signup_form_user, signup_login_target, signup_user,
    without_password, AuthError, LoginFailure,
};
use libretunes::models::backend::User;

fn user(id: Option<i32>, admin: bool) -> User {
    User {
        id,
        username: "ada".to_string(),
        email: "ada@example.com".to_string(),
        password: Some("secret".to_string()),
        created_at: Some(1_709_640_000_000_000),
        admin,
    }
}

#[test]
fn user_id_and_session_hash() {
    let u = user(Some(17), false);
    assert_eq!(u.id(), 17);
    assert_eq!(u.session_auth_hash(), "secret".as_bytes());
    let mut v = user(Some(1), false);
    v.password = Some("pässword".to_string());
    assert_eq!(v.session_auth_hash(), "pässword".as_bytes());
}

#[test]
fn auth_error_messages() {
    assert_eq!(AuthError::Unauthorized.message(), "Unauthorized");
    assert_eq!(AuthError::NotLoggedIn.message(), "User not logged in");
    assert_eq!(AuthError::SignupDisabled.message(), "Signup is disabled");
    assert_eq!(AuthError::UserNotFound.message(), "Error authenticating user: User not found");
}

#[test]
fn signup_disabled_only_by_true() {
    assert!(signup_disabled(Some("true")));
    assert!(!signup_disabled(Some("True")));
    assert!(!signup_disabled(Some("1")));
    assert!(!signup_disabled(Some("")));
    assert!(!signup_disabled(Some("truee")));
    assert!(!signup_disabled(None));
}

#[test]
fn signup_user_strips_id_and_admin() {
    let r = signup_user(None, user(Some(99), true)).unwrap();
    assert_eq!(r.id, None);
    assert!(!r.admin);
    assert_eq!(r.username, "ada");
    assert_eq!(r.email, "ada@example.com");
    assert_eq!(r.password, Some("secret".to_string()));
    assert_eq!(r.created_at, Some(1_709_640_000_000_000));
}

#[test]
fn signup_refused_when_disabled() {
    assert_eq!(signup_user(Some("true"), user(None, false)).unwrap_err(), AuthError::SignupDisabled);
    assert!(signup_user(Some("false"), user(None, false)).is_ok());
}

#[test]
fn signup_credentials_from_user() {
    let c = signup_credentials(&user(None, false));
    assert_eq!(c.username_or_email, "ada");
    assert_eq!(c.password, "secret");
}

#[test]
fn signup_login_target_needs_found_user() {
    assert_eq!(signup_login_target(Some(user(Some(3), false))).unwrap().id, Some(3));
    assert_eq!(signup_login_target(None).unwrap_err(), AuthError::UserNotFound);
}

#[test]
fn login_answer_strips_password() {
    let a = login_answer(Some(user(Some(3), false))).unwrap();
    assert_eq!(a.password, None);
    assert_eq!(a.username, "ada");
    assert_eq!(a.id, Some(3));
    assert!(login_answer(None).is_none());
    assert_eq!(without_password(user(Some(1), true)).password, None);
}

#[test]
fn session_checks() {
    let plain = user(Some(1), false);
    let admin = user(Some(2), true);
    assert!(check_auth(Some(&plain)));
    assert!(!check_auth(None));
    assert!(check_admin(Some(&admin)));
    assert!(!check_admin(Some(&plain)));
    assert!(!check_admin(None));
    assert!(require_auth(true).is_ok());
    assert_eq!(require_auth(false).unwrap_err(), AuthError::Unauthorized);
    assert!(require_admin(true).is_ok());
    assert_eq!(require_admin(false).unwrap_err(), AuthError::Unauthorized);
}

#[test]
fn admin_is_logged_in_on_values() {
    let admin = user(Some(2), true);
    assert!(check_admin(Some(&admin)) && check_auth(Some(&admin)));
}

#[test]
fn get_user_and_logged_in_user() {
    assert_eq!(get_user(Some(user(Some(5), false))).unwrap().id, Some(5));
    assert_eq!(get_user(None).unwrap_err(), AuthError::NotLoggedIn);
    let seen = get_logged_in_user(Some(user(Some(5), false))).unwrap();
    assert_eq!(seen.password, None);
    assert_eq!(seen.email, "ada@example.com");
    assert!(get_logged_in_user(None).is_none());
}

#[test]
fn signup_form_builds_plain_account() {
    let u = signup_form_user("bob".to_string(), "bob@example.com".to_string(), "pw".to_string());
    assert_eq!(u.id, None);
    assert_eq!(u.username, "bob");
    assert_eq!(u.email, "bob@example.com");
    assert_eq!(u.password, Some("pw".to_string()));
    assert_eq!(u.created_at, None);
    assert!(!u.admin);
}

#[test]
fn login_form_outcomes() {
    assert_eq!(login_form_result(Ok(Some(user(Some(8), false)))).unwrap().id, Some(8));
    let none = login_form_result(Ok(None)).unwrap_err();
    assert!(matches!(none, LoginFailure::InvalidCredentials));
    assert_eq!(none.message(), "Invalid username or password");
    let failed = login_form_result(Err("server down".to_string())).unwrap_err();
    assert_eq!(failed.message(), "server down");
}
