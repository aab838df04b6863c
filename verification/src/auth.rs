//! Sign-up, log-in and the checks that guard protected requests.
//!
//! The session store and the database stay with the caller: these functions
//! take what they returned (the logged-in user, if any; the sign-up setting)
//! and decide what the request is answered.

use vstd::prelude::*;
use crate::models::backend::User;
use crate::text::same_text;

verus! {

/// The authentication backend of the server: it looks users up by their
/// credentials and by their id.
#[derive(Clone, Copy, Debug)]
pub struct AuthBackend;

/// What a user types to log in.
#[derive(Clone, Debug)]
pub struct UserCredentials {
    /// The username or the email of the account.
    pub username_or_email: String,
    /// The password, in plain text.
    pub password: String,
}

/// Why a request was refused.
#[derive(Clone, Copy, Debug, PartialEq, Eq, Structural)]
pub enum AuthError {
    /// The request needs a logged-in user (or an admin) and has none.
    Unauthorized,
    /// The request asked for the logged-in user and there is none.
    NotLoggedIn,
    /// New accounts may not be created.
    SignupDisabled,
    /// The account just created could not be found again to log it in.
    UserNotFound,
}

/// The text the client is shown for each refusal.
pub open spec fn auth_error_text(e: AuthError) -> Seq<char> {
    match e {
        AuthError::Unauthorized => "Unauthorized"@,
        AuthError::NotLoggedIn => "User not logged in"@,
        AuthError::SignupDisabled => "Signup is disabled"@,
        AuthError::UserNotFound => "Error authenticating user: User not found"@,
    }
}

impl AuthError {
    /// The message sent back to the client.
    pub fn message(&self) -> (s: String)
        ensures
            s@ == auth_error_text(*self),
    {
        match self {
            AuthError::Unauthorized => String::from_str("Unauthorized"),
            AuthError::NotLoggedIn => String::from_str("User not logged in"),
            AuthError::SignupDisabled => String::from_str("Signup is disabled"),
            AuthError::UserNotFound => String::from_str("Error authenticating user: User not found"),
        }
    }
}

/// The same user with its password removed, as it may be sent to a client.
pub open spec fn stripped(user: User) -> User {
    User { password: None, ..user }
}

/// The user that a sign-up request creates: never an admin, and without an
/// id, which the database assigns.
pub open spec fn signup_account(user: User) -> User {
    User { id: None, admin: false, ..user }
}

impl User {
    /// The id of a stored user.
    pub fn id(&self) -> (id: i32)
        requires
            self.id is Some,
        ensures
            id == self.id->0,
    {
        self.id.unwrap()
    }

    /// The bytes that tie a session to this user's password: a session
    /// ends when the password changes.
    pub fn session_auth_hash(&self) -> (hash: &[u8])
        requires
            self.password is Some,
        ensures
            hash@ == vstd::utf8::encode_utf8(self.password->0@),
    {
        self.password.as_ref().unwrap().as_str().as_bytes()
    }
}

/// The same user without its password.
pub fn without_password(user: User) -> (out: User)
    ensures
        out == stripped(user),
        out.password is None,
        out.id == user.id,
        out.username == user.username,
        out.email == user.email,
        out.created_at == user.created_at,
        out.admin == user.admin,
{
    User { password: None, ..user }
}

/// Whether the sign-up setting disables sign-up: only the exact value
/// "true" does.
pub fn signup_disabled(setting: Option<&str>) -> (disabled: bool)
    ensures
        disabled <==> (setting is Some && setting->0@ == "true"@),
{
    match setting {
        Some(v) => same_text(v, "true"),
        None => false,
    }
}

/// The account that a sign-up request stores, or the refusal when sign-up
/// is disabled by the setting.
pub fn signup_user(setting: Option<&str>, new_user: User) -> (r: Result<User, AuthError>)
    ensures
        (setting is Some && setting->0@ == "true"@) ==> r == Err::<User, AuthError>(
            AuthError::SignupDisabled,
        ),
        !(setting is Some && setting->0@ == "true"@) ==> r == Ok::<User, AuthError>(
            signup_account(new_user),
        ),
        r is Ok ==> !r->Ok_0.admin && r->Ok_0.id is None,
        r matches Ok(u) ==> u.username == new_user.username && u.email == new_user.email
            && u.password == new_user.password && u.created_at == new_user.created_at,
{
    if signup_disabled(setting) {
        Err(AuthError::SignupDisabled)
    } else {
        Ok(User { id: None, admin: false, ..new_user })
    }
}

/// The credentials with which a newly created account is logged in.
pub fn signup_credentials(user: &User) -> (c: UserCredentials)
    requires
        user.password is Some,
    ensures
        c.username_or_email@ == user.username@,
        c.password@ == user.password->0@,
{
    UserCredentials {
        username_or_email: String::from_str(user.username.as_str()),
        password: String::from_str(user.password.as_ref().unwrap().as_str()),
    }
}

/// The account to log in after sign-up, from what the backend found for the
/// new credentials.
pub fn signup_login_target(found: Option<User>) -> (r: Result<User, AuthError>)
    ensures
        found is Some ==> r == Ok::<User, AuthError>(found->0),
        found is None ==> r == Err::<User, AuthError>(AuthError::UserNotFound),
{
    match found {
        Some(user) => Ok(user),
        None => Err(AuthError::UserNotFound),
    }
}

/// What a log-in request answers once the backend has checked the
/// credentials: the user without its password, or nothing when they did not
/// match.
pub fn login_answer(found: Option<User>) -> (r: Option<User>)
    ensures
        found is None ==> r is None,
        found is Some ==> r == Some(stripped(found->0)),
        found matches Some(u) ==> (r matches Some(v) && v.password is None && v.id == u.id
            && v.username == u.username && v.email == u.email && v.created_at == u.created_at
            && v.admin == u.admin),
{
    match found {
        Some(user) => Some(without_password(user)),
        None => None,
    }
}

/// Whether the session has a logged-in user.
pub open spec fn session_logged_in(user: Option<User>) -> bool {
    user is Some
}

/// Whether the session's user is an admin.
pub open spec fn session_is_admin(user: Option<User>) -> bool {
    match user {
        Some(u) => u.admin,
        None => false,
    }
}

/// Whether a user is logged in.
pub fn check_auth(user: Option<&User>) -> (logged_in: bool)
    ensures
        logged_in == session_logged_in(match user {
            Some(u) => Some(*u),
            None => None,
        }),
{
    user.is_some()
}

/// Refuses the request unless a user is logged in.
pub fn require_auth(logged_in: bool) -> (r: Result<(), AuthError>)
    ensures
        logged_in ==> r is Ok,
        !logged_in ==> r == Err::<(), AuthError>(AuthError::Unauthorized),
{
    if logged_in {
        Ok(())
    } else {
        Err(AuthError::Unauthorized)
    }
}

/// The logged-in user, or the refusal when nobody is logged in.
pub fn get_user(user: Option<User>) -> (r: Result<User, AuthError>)
    ensures
        user is Some ==> r == Ok::<User, AuthError>(user->0),
        user is None ==> r == Err::<User, AuthError>(AuthError::NotLoggedIn),
{
    match user {
        Some(u) => Ok(u),
        None => Err(AuthError::NotLoggedIn),
    }
}

/// The logged-in user as a client may see it: without its password.
pub fn get_logged_in_user(user: Option<User>) -> (r: Option<User>)
    ensures
        user is None ==> r is None,
        user is Some ==> r == Some(stripped(user->0)),
        user matches Some(u) ==> (r matches Some(v) && v.password is None && v.id == u.id
            && v.username == u.username && v.email == u.email && v.created_at == u.created_at
            && v.admin == u.admin),
{
    match user {
        Some(u) => Some(without_password(u)),
        None => None,
    }
}

/// Whether a user is logged in and is an admin.
pub fn check_admin(user: Option<&User>) -> (is_admin: bool)
    ensures
        is_admin == session_is_admin(match user {
            Some(u) => Some(*u),
            None => None,
        }),
{
    match user {
        Some(u) => u.admin,
        None => false,
    }
}

/// Refuses the request unless the logged-in user is an admin.
pub fn require_admin(is_admin: bool) -> (r: Result<(), AuthError>)
    ensures
        is_admin ==> r is Ok,
        !is_admin ==> r == Err::<(), AuthError>(AuthError::Unauthorized),
{
    if is_admin {
        Ok(())
    } else {
        Err(AuthError::Unauthorized)
    }
}

/// The account that the sign-up form submits: its fields as typed, no id,
/// no creation time, and not an admin.
pub fn signup_form_user(username: String, email: String, password: String) -> (u: User)
    ensures
        u.id is None,
        u.username@ == username@,
        u.email@ == email@,
        u.password is Some && u.password->0@ == password@,
        u.created_at is None,
        !u.admin,
{
    User { id: None, username, email, password: Some(password), created_at: None, admin: false }
}

/// Why the log-in form shows an error.
#[derive(Clone, Debug)]
pub enum LoginFailure {
    /// The request failed; the server's message.
    Request(String),
    /// No account has these credentials.
    InvalidCredentials,
}

impl LoginFailure {
    /// The error that the log-in form shows.
    pub fn message(&self) -> (s: String)
        ensures
            self matches LoginFailure::Request(m) ==> s@ == m@,
            self is InvalidCredentials ==> s@ == "Invalid username or password"@,
    {
        match self {
            LoginFailure::Request(m) => m.clone(),
            LoginFailure::InvalidCredentials => String::from_str("Invalid username or password"),
        }
    }
}

/// What the log-in form does with the server's answer: log the user in, or
/// show why it could not.
pub fn login_form_result(answer: Result<Option<User>, String>) -> (r: Result<User, LoginFailure>)
    ensures
        answer matches Ok(Some(u)) ==> r == Ok::<User, LoginFailure>(u),
        answer matches Ok(None) ==> r matches Err(LoginFailure::InvalidCredentials),
        answer matches Err(m) ==> (r matches Err(LoginFailure::Request(e)) && e@ == m@),
{
    match answer {
        Ok(Some(u)) => Ok(u),
        Ok(None) => Err(LoginFailure::InvalidCredentials),
        Err(m) => Err(LoginFailure::Request(m)),
    }
}

/// An admin is always logged in: every session that passes the admin check
/// passes the log-in check too.
pub proof fn law_admin_is_logged_in(user: Option<User>)
    ensures
        session_is_admin(user) ==> session_logged_in(user),
{
}

/// Removing the password keeps every other field of the user.
pub proof fn law_stripped_keeps_fields(user: User)
    ensures
        stripped(user).password is None,
        stripped(user).id == user.id,
        stripped(user).username == user.username,
        stripped(user).email == user.email,
        stripped(user).created_at == user.created_at,
        stripped(user).admin == user.admin,
{
}

/// The account that sign-up stores is the submitted one with no id and no
/// admin rights, every other field kept.
pub proof fn law_signup_account_fields(user: User)
    ensures
        signup_account(user).id is None,
        !signup_account(user).admin,
        signup_account(user).username == user.username,
        signup_account(user).email == user.email,
        signup_account(user).password == user.password,
        signup_account(user).created_at == user.created_at,
{
}

} // verus!
