use applyforge::auth::{
    hash_new_password, hash_password_with_salt, plan_registration_with_salt, login_reply, plan_login, plan_registration, registered_reply, registration_precheck,
    ApiReply, AuthError, HttpStatus, RegisterPlan,
};
use applyforge::models::{hello_message, AuthRequest};

fn request(username: &str, password: &str) -> AuthRequest {
    AuthRequest { username: username.to_string(), password: password.to_string() }
}

fn assert_reply(reply: &ApiReply, status: HttpStatus, success: bool, message: &str) {
    assert_eq!(reply.status, status);
    let body = reply.body.as_ref().expect("reply has a body");
    assert_eq!(body.success, success);
    assert_eq!(body.message, message);
}

#[test]
fn status_codes() {
    assert_eq!(HttpStatus::Success.code(), 200);
    assert_eq!(HttpStatus::BadRequest.code(), 400);
    assert_eq!(HttpStatus::Unauthorized.code(), 401);
    assert_eq!(HttpStatus::InternalServerError.code(), 500);
}

#[test]
fn precheck_failed_lookup_is_internal_error() {
    let reply = registration_precheck(None).expect("stops");
    assert_eq!(reply.status, HttpStatus::InternalServerError);
    assert!(reply.body.is_none());
}

#[test]
fn precheck_taken_name_is_refused() {
    let reply = registration_precheck(Some(1)).expect("stops");
    assert_reply(&reply, HttpStatus::BadRequest, false, "Username already exists");
    let reply = registration_precheck(Some(7)).expect("stops");
    assert_reply(&reply, HttpStatus::BadRequest, false, "Username already exists");
}

#[test]
fn precheck_free_name_goes_on() {
    assert!(registration_precheck(Some(0)).is_none());
    assert!(registration_precheck(Some(-1)).is_none());
}

#[test]
fn registered_reply_reports_success() {
    assert_reply(&registered_reply(), HttpStatus::Success, true, "Registered successfully");
}

#[test]
fn registration_of_taken_name_stores_nothing() {
    match plan_registration(&request("bob", "pw"), Some(1)) {
        Ok(RegisterPlan::Reply(reply)) => assert_reply(&reply, HttpStatus::BadRequest, false, "Username already exists"),
        _ => panic!("expected a refusal"),
    }
    match plan_registration(&request("bob", "pw"), None) {
        Ok(RegisterPlan::Reply(reply)) => assert_eq!(reply.status, HttpStatus::InternalServerError),
        _ => panic!("expected an internal error"),
    }
}

#[test]
fn registered_password_logs_in_and_others_do_not() {
    let plan = plan_registration(&request("carol", "s3cret!"), Some(0)).expect("hashing works");
    let (username, password_hash, reply) = match plan {
        RegisterPlan::Store { username, password_hash, reply } => (username, password_hash, reply),
        RegisterPlan::Reply(_) => panic!("expected the account to be stored"),
    };
    assert_eq!(username, "carol");
    assert!(password_hash.starts_with("$argon2id$"));
    assert!(!password_hash.contains("s3cret!"));
    assert_reply(&reply, HttpStatus::Success, true, "Registered successfully");

    let good = plan_login(&request("carol", "s3cret!"), Some(password_hash.clone())).expect("well-formed hash");
    assert_reply(&good, HttpStatus::Success, true, "Login successful");
    let bad = plan_login(&request("carol", "s3cret?"), Some(password_hash)).expect("well-formed hash");
    assert_reply(&bad, HttpStatus::Unauthorized, false, "Invalid credentials");
}

#[test]
fn login_of_unknown_user_is_refused() {
    let reply = plan_login(&request("nobody", "x"), None).expect("no hash to parse");
    assert_reply(&reply, HttpStatus::Unauthorized, false, "Invalid credentials");
}

#[test]
fn login_against_malformed_hash_is_an_error() {
    let result = plan_login(&request("dave", "x"), Some("not a phc string".to_string()));
    assert!(matches!(result, Err(AuthError::MalformedStoredHash)));
    let result = plan_login(&request("dave", "x"), Some(String::new()));
    assert!(matches!(result, Err(AuthError::MalformedStoredHash)));
}

#[test]
fn fresh_hashes_differ_by_salt() {
    let first = hash_new_password("same").expect("hashing works");
    let second = hash_new_password("same").expect("hashing works");
    assert_ne!(first, "same");
    assert_ne!(first, second);
    let accepted = plan_login(&request("erin", "same"), Some(second)).expect("well-formed hash");
    assert_eq!(accepted.status, HttpStatus::Success);
}

#[test]
fn login_reply_by_check_outcome() {
    assert_reply(&login_reply(Some(true)), HttpStatus::Success, true, "Login successful");
    assert_reply(&login_reply(Some(false)), HttpStatus::Unauthorized, false, "Invalid credentials");
    assert_reply(&login_reply(None), HttpStatus::Unauthorized, false, "Invalid credentials");
}

#[test]
fn hello_route_message() {
    assert_eq!(hello_message(), "Hello from Actix Web!");
}

#[test]
fn hashing_under_a_given_salt_is_deterministic() {
    let salt = [7u8; 16];
    let first = hash_password_with_salt("hunter42", &salt).expect("short password hashes");
    let second = hash_password_with_salt("hunter42", &salt).expect("short password hashes");
    assert_eq!(first, second);
    assert!(first.starts_with("$argon2id$v=19$m=19456,t=2,p=1$"));
    let other = hash_password_with_salt("hunter42", &[8u8; 16]).expect("short password hashes");
    assert_ne!(first, other);
    let ok = plan_login(&request("frank", "hunter42"), Some(other)).expect("well-formed hash");
    assert_eq!(ok.status, HttpStatus::Success);
}

#[test]
fn registration_under_a_given_salt_stores_that_hash() {
    let salt = [3u8; 16];
    match plan_registration_with_salt(&request("gina", "pw"), Some(0), &salt) {
        Ok(RegisterPlan::Store { username, password_hash, reply }) => {
            assert_eq!(username, "gina");
            assert_eq!(password_hash, hash_password_with_salt("pw", &salt).unwrap());
            assert_reply(&reply, HttpStatus::Success, true, "Registered successfully");
        },
        _ => panic!("expected the account to be stored"),
    }
    match plan_registration_with_salt(&request("gina", "pw"), Some(2), &salt) {
        Ok(RegisterPlan::Reply(reply)) => assert_reply(&reply, HttpStatus::BadRequest, false, "Username already exists"),
        _ => panic!("expected a refusal"),
    }
}

#[test]
fn fresh_hash_has_argon2id_form() {
    let phc = hash_new_password("x").expect("short password hashes");
    assert!(phc.starts_with("$argon2id$v=19$m=19456,t=2,p=1$"));
}
