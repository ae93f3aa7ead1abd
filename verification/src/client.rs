//! The addresses the browser client talks to.

use vstd::prelude::*;
use vstd::string::*;

verus! {

/// Where the service listens.
pub open spec fn service_base() -> Seq<char> {
    "http://127.0.0.1:8080"@
}

/// The address of the jobs of a user.
pub open spec fn jobs_address(username: Seq<char>) -> Seq<char> {
    service_base() + "/api/jobs/"@ + username
}

/// The address that takes new jobs.
pub open spec fn new_job_address() -> Seq<char> {
    service_base() + "/api/jobs"@
}

/// The address of the login route, or of the registration route.
pub open spec fn auth_address(is_login: bool) -> Seq<char> {
    service_base() + if is_login {
        "/api/login"@
    } else {
        "/api/register"@
    }
}

/// The address of the jobs of a user.
pub fn jobs_url(username: &str) -> (url: String)
    ensures
        url@ == jobs_address(username@),
{
    let mut url = String::from_str("http://127.0.0.1:8080");
    url.append("/api/jobs/");
    url.append(username);
    url
}

/// The address that takes new jobs.
pub fn new_job_url() -> (url: String)
    ensures
        url@ == new_job_address(),
{
    let mut url = String::from_str("http://127.0.0.1:8080");
    url.append("/api/jobs");
    url
}

/// The address to post credentials to: the login route when logging in,
/// the registration route otherwise.
pub fn auth_url(is_login: bool) -> (url: String)
    ensures
        url@ == auth_address(is_login),
{
    let mut url = String::from_str("http://127.0.0.1:8080");
    let endpoint = if is_login {
        "/api/login"
    } else {
        "/api/register"
    };
    url.append(endpoint);
    url
}

} // verus!
