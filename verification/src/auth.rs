//! Registration and login: what the service answers, and what it stores.
//!
//! The database work happens around these functions: the caller looks up how
//! many accounts carry the name (registration) or the stored password hash
//! (login), hands that in, and carries out the plan that comes back.

use vstd::prelude::*;
use vstd::string::*;
use crate::models::{AuthRequest, AuthResponse};
use crate::password::{
    argon2_accepts, argon2_hash, argon2_phc_string, argon2_verify, has_argon2_prefix, password_within_limit, phc_string_parses,
    random_salt, salt_len,
};

verus! {

/// The HTTP status of a reply.
#[derive(Clone, Copy, Debug, PartialEq, Eq, Structural)]
pub enum HttpStatus {
    Success,
    BadRequest,
    Unauthorized,
    InternalServerError,
}

/// The numeric code of an HTTP status.
pub open spec fn status_code(status: HttpStatus) -> u16 {
    match status {
        HttpStatus::Success => 200,
        HttpStatus::BadRequest => 400,
        HttpStatus::Unauthorized => 401,
        HttpStatus::InternalServerError => 500,
    }
}

impl HttpStatus {
    /// The numeric code of this status.
    pub fn code(&self) -> (code: u16)
        ensures
            code == status_code(*self),
    {
        match self {
            HttpStatus::Success => 200,
            HttpStatus::BadRequest => 400,
            HttpStatus::Unauthorized => 401,
            HttpStatus::InternalServerError => 500,
        }
    }
}

/// A reply to a registration or login: a status and, except for an internal
/// error, a JSON body.
pub struct ApiReply {
    pub status: HttpStatus,
    pub body: Option<AuthResponse>,
}

/// The plain value of an answer body: whether it reports success, and its message.
pub open spec fn body_view(body: Option<AuthResponse>) -> Option<(bool, Seq<char>)> {
    match body {
        Some(b) => Some((b.success, b.message@)),
        None => None,
    }
}

/// Whether a reply has the given status and body.
pub open spec fn reply_is(reply: ApiReply, status: HttpStatus, body: Option<(bool, Seq<char>)>) -> bool {
    reply.status == status && body_view(reply.body) == body
}

pub open spec fn message_user_exists() -> Seq<char> {
    "Username already exists"@
}

pub open spec fn message_registered() -> Seq<char> {
    "Registered successfully"@
}

pub open spec fn message_login_ok() -> Seq<char> {
    "Login successful"@
}

pub open spec fn message_bad_credentials() -> Seq<char> {
    "Invalid credentials"@
}

/// Why an account request could not be carried through.
#[derive(Clone, Copy, Debug, PartialEq, Eq, Structural)]
pub enum AuthError {
    /// Hashing the new password failed.
    PasswordHashing,
    /// The hash stored for the account is not a PHC string.
    MalformedStoredHash,
}

/// What to do with a registration: answer at once, or store the account and
/// then answer.
pub enum RegisterPlan {
    Reply(ApiReply),
    Store { username: String, password_hash: String, reply: ApiReply },
}

fn auth_reply(status: HttpStatus, success: bool, message: &str) -> (reply: ApiReply)
    ensures
        reply_is(reply, status, Some((success, message@))),
{
    ApiReply { status, body: Some(AuthResponse { success, message: String::from_str(message) }) }
}

/// The answer that ends a registration before anything is stored, given the
/// number of accounts that already carry the name (`None`: the lookup
/// failed): an internal error without body when the lookup failed, a refusal
/// when the name is taken, and `None` when the registration may go on.
pub fn registration_precheck(existing_accounts: Option<i64>) -> (reply: Option<ApiReply>)
    ensures
        existing_accounts is None ==> (reply matches Some(r) && reply_is(r, HttpStatus::InternalServerError, None)),
        existing_accounts matches Some(n) && n > 0 ==> (reply matches Some(r) && reply_is(
            r,
            HttpStatus::BadRequest,
            Some((false, message_user_exists())),
        )),
        existing_accounts matches Some(n) && n <= 0 ==> reply is None,
{
    match existing_accounts {
        None => Some(ApiReply { status: HttpStatus::InternalServerError, body: None }),
        Some(n) => {
            if n > 0 {
                Some(auth_reply(HttpStatus::BadRequest, false, "Username already exists"))
            } else {
                None
            }
        },
    }
}

/// The answer after a new account has been stored.
pub fn registered_reply() -> (reply: ApiReply)
    ensures
        reply_is(reply, HttpStatus::Success, Some((true, message_registered()))),
{
    auth_reply(HttpStatus::Success, true, "Registered successfully")
}

/// Whether a text is the Argon2 PHC string of a password under some 16-byte salt.
pub open spec fn hashed_password(phc: Seq<char>, password: Seq<char>) -> bool {
    exists|salt: Seq<u8>| salt.len() == salt_len() && phc == argon2_phc_string(password, salt)
}

/// Hashes a password under the given 16-byte salt. A success is the Argon2
/// PHC string of the password under that salt, with the default parameters'
/// prefix; a password within Argon2's length limit always hashes.
pub fn hash_password_with_salt(password: &str, salt: &[u8; 16]) -> (res: Result<String, AuthError>)
    ensures
        password_within_limit(password@) ==> res is Ok,
        res matches Ok(phc) ==> phc@ == argon2_phc_string(password@, salt@) && has_argon2_prefix(phc@),
        res matches Err(e) ==> e == AuthError::PasswordHashing,
{
    match argon2_hash(password, salt) {
        Ok(phc) => Ok(phc),
        Err(_) => Err(AuthError::PasswordHashing),
    }
}

/// Hashes a new password under a freshly drawn random salt. A success is the
/// Argon2 PHC string of the password under some 16-byte salt; a password
/// within Argon2's length limit always hashes.
pub fn hash_new_password(password: &str) -> (res: Result<String, AuthError>)
    ensures
        password_within_limit(password@) ==> res is Ok,
        res matches Ok(phc) ==> hashed_password(phc@, password@) && has_argon2_prefix(phc@),
        res matches Err(e) ==> e == AuthError::PasswordHashing,
{
    let salt = random_salt();
    let res = hash_password_with_salt(password, &salt);
    assert(salt@.len() == salt_len());
    res
}

/// What a registration plan must be, given the lookup of the requested name
/// and, when the name is free, what hashing the password gave.
pub open spec fn registration_plan_is(
    request: AuthRequest,
    existing_accounts: Option<i64>,
    plan: Result<RegisterPlan, AuthError>,
    hashed: spec_fn(Seq<char>) -> bool,
) -> bool {
    match existing_accounts {
        None => plan matches Ok(RegisterPlan::Reply(r)) && reply_is(r, HttpStatus::InternalServerError, None),
        Some(n) => if n > 0 {
            plan matches Ok(RegisterPlan::Reply(r)) && reply_is(
                r,
                HttpStatus::BadRequest,
                Some((false, message_user_exists())),
            )
        } else {
            &&& password_within_limit(request.password@) ==> plan is Ok
            &&& match plan {
                Ok(RegisterPlan::Store { username, password_hash, reply }) => {
                    &&& username@ == request.username@
                    &&& hashed(password_hash@)
                    &&& has_argon2_prefix(password_hash@)
                    &&& reply_is(reply, HttpStatus::Success, Some((true, message_registered())))
                },
                Ok(RegisterPlan::Reply(_)) => false,
                Err(e) => e == AuthError::PasswordHashing,
            }
        },
    }
}

/// Plans a registration under a given 16-byte salt, given the number of
/// accounts that already carry the requested name (`None`: the lookup
/// failed). When the name is free, the plan stores the requested name with
/// the Argon2 PHC string of the password under that salt and then answers
/// that the registration succeeded; a password within Argon2's length limit
/// always gets that far.
pub fn plan_registration_with_salt(request: &AuthRequest, existing_accounts: Option<i64>, salt: &[u8; 16]) -> (plan:
    Result<RegisterPlan, AuthError>)
    ensures
        registration_plan_is(
            *request,
            existing_accounts,
            plan,
            |phc: Seq<char>| phc == argon2_phc_string(request.password@, salt@),
        ),
{
    match registration_precheck(existing_accounts) {
        Some(reply) => Ok(RegisterPlan::Reply(reply)),
        None => {
            let password_hash = hash_password_with_salt(request.password.as_str(), salt)?;
            Ok(
                RegisterPlan::Store {
                    username: request.username.clone(),
                    password_hash,
                    reply: registered_reply(),
                },
            )
        },
    }
}

/// Plans a registration, given the number of accounts that already carry the
/// requested name (`None`: the lookup failed). When the name is free, the
/// plan stores the requested name with the hash of the password under a
/// freshly drawn 16-byte salt and then answers that the registration
/// succeeded; a password within Argon2's length limit always gets that far.
pub fn plan_registration(request: &AuthRequest, existing_accounts: Option<i64>) -> (plan: Result<RegisterPlan, AuthError>)
    ensures
        registration_plan_is(*request, existing_accounts, plan, |phc: Seq<char>| hashed_password(phc, request.password@)),
{
    let salt = random_salt();
    let plan = plan_registration_with_salt(request, existing_accounts, &salt);
    assert(salt@.len() == salt_len());
    plan
}

/// The answer to a login, given the outcome of the password check: `None`
/// when no account carries the name, otherwise whether the password matched.
pub fn login_reply(password_accepted: Option<bool>) -> (reply: ApiReply)
    ensures
        password_accepted matches Some(true) ==> reply_is(reply, HttpStatus::Success, Some((true, message_login_ok()))),
        !(password_accepted matches Some(true)) ==> reply_is(
            reply,
            HttpStatus::Unauthorized,
            Some((false, message_bad_credentials())),
        ),
{
    match password_accepted {
        Some(true) => auth_reply(HttpStatus::Success, true, "Login successful"),
        _ => auth_reply(HttpStatus::Unauthorized, false, "Invalid credentials"),
    }
}

/// Answers a login, given the password hash stored for the requested name
/// (`None`: no such account, or the lookup failed). A stored hash that is no
/// PHC string is an error; otherwise the login succeeds exactly when Argon2
/// accepts the password against it. In particular a hash made from this same
/// password, as registration stores it, always lets the login through when
/// the password is within Argon2's length limit.
pub fn plan_login(request: &AuthRequest, stored_hash: Option<String>) -> (reply: Result<ApiReply, AuthError>)
    ensures
        stored_hash is None ==> (reply matches Ok(r) && reply_is(
            r,
            HttpStatus::Unauthorized,
            Some((false, message_bad_credentials())),
        )),
        stored_hash matches Some(h) ==> (reply is Err <==> !phc_string_parses(h@)),
        stored_hash matches Some(h) ==> (reply matches Err(e) ==> e == AuthError::MalformedStoredHash),
        stored_hash matches Some(h) ==> (reply matches Ok(r) ==> (
            if argon2_accepts(request.password@, h@) {
                reply_is(r, HttpStatus::Success, Some((true, message_login_ok())))
            } else {
                reply_is(r, HttpStatus::Unauthorized, Some((false, message_bad_credentials())))
            })),
        stored_hash matches Some(h) && password_within_limit(request.password@) && hashed_password(h@, request.password@)
            ==> (reply matches Ok(r) && reply_is(r, HttpStatus::Success, Some((true, message_login_ok())))),
{
    match stored_hash {
        None => Ok(login_reply(None)),
        Some(hash) => {
            match argon2_verify(request.password.as_str(), hash.as_str()) {
                Ok(accepted) => Ok(login_reply(Some(accepted))),
                Err(_) => Err(AuthError::MalformedStoredHash),
            }
        },
    }
}

} // verus!
