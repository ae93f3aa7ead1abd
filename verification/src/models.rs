//! The records that the service exchanges with its clients.

use vstd::prelude::*;
use vstd::string::*;
use crate::status::ApplicationStatus;

verus! {

/// An account as it is kept: the name and the stored password hash.
pub struct User {
    pub username: String,
    pub password: String,
}

/// What a client sends to register or to log in.
pub struct AuthRequest {
    pub username: String,
    pub password: String,
}

/// What the service answers to a registration or a login.
pub struct AuthResponse {
    pub success: bool,
    pub message: String,
}

/// A job application as the service stores and returns it.
pub struct JobApplication {
    pub id: usize,
    pub company: String,
    pub position: String,
    pub status: ApplicationStatus,
    pub date: String,
    pub username: String,
}

/// The plain value of a job application.
pub struct JobView {
    pub id: usize,
    pub company: Seq<char>,
    pub position: Seq<char>,
    pub status: ApplicationStatus,
    pub date: Seq<char>,
    pub username: Seq<char>,
}

impl View for JobApplication {
    type V = JobView;

    open spec fn view(&self) -> JobView {
        JobView {
            id: self.id,
            company: self.company@,
            position: self.position@,
            status: self.status,
            date: self.date@,
            username: self.username@,
        }
    }
}

/// The message of the service's greeting route.
pub open spec fn greeting() -> Seq<char> {
    "Hello from Actix Web!"@
}

/// The message of the service's greeting route.
pub fn hello_message() -> (message: String)
    ensures
        message@ == greeting(),
{
    String::from_str("Hello from Actix Web!")
}

} // verus!
