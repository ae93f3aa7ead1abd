//! The browser's login and registration form.

use vstd::prelude::*;
use vstd::string::*;
use crate::client::{auth_address, auth_url};
use crate::models::AuthRequest;
use crate::tracker::text_view;

verus! {

/// The form's state: what was typed, the last error shown, and whether it
/// logs in (or registers).
pub struct LoginForm {
    pub username: String,
    pub password: String,
    pub error: Option<String>,
    pub is_login: bool,
}

/// The plain value of the form's state.
pub struct LoginFormView {
    pub username: Seq<char>,
    pub password: Seq<char>,
    pub error: Option<Seq<char>>,
    pub is_login: bool,
}

impl View for LoginForm {
    type V = LoginFormView;

    open spec fn view(&self) -> LoginFormView {
        LoginFormView {
            username: self.username@,
            password: self.password@,
            error: text_view(self.error),
            is_login: self.is_login,
        }
    }
}

/// How the service answered the form's request.
pub enum AuthAnswer {
    /// The service answered with this status code and, when it could be read,
    /// this body text.
    Answered { code: u16, body: Option<String> },
    /// The request did not go through; the text says why.
    Failed(String),
}

pub open spec fn message_unknown_error() -> Seq<char> {
    "Unknown error"@
}

/// The error the form shows for an answer other than 200.
pub open spec fn answer_error(answer: AuthAnswer) -> Option<Seq<char>> {
    match answer {
        AuthAnswer::Answered { code, body } => if code == 200 {
            None
        } else {
            match body {
                Some(text) => Some(text@),
                None => Some(message_unknown_error()),
            }
        },
        AuthAnswer::Failed(reason) => Some(reason@),
    }
}

pub open spec fn form_title(is_login: bool) -> Seq<char> {
    if is_login {
        "Login"@
    } else {
        "Register"@
    }
}

pub open spec fn switch_label(is_login: bool) -> Seq<char> {
    if is_login {
        "Need an account? Register"@
    } else {
        "Already have an account? Login"@
    }
}

/// An answer logs the user in exactly when its status code is 200; any
/// other code shows the answer's body (when it could be read) as the error,
/// and a failed request shows why it failed.
pub proof fn lemma_only_ok_status_logs_in(answer: AuthAnswer)
    ensures
        answer_error(answer) is None <==> (answer matches AuthAnswer::Answered { code, .. } && code == 200),
        match answer {
            AuthAnswer::Answered { code, body } => code != 200 ==> match body {
                Some(text) => answer_error(answer) == Some(text@),
                None => answer_error(answer) is Some,
            },
            AuthAnswer::Failed(reason) => answer_error(answer) == Some(reason@),
        },
{
}

impl LoginForm {
    /// An empty form, set to log in, showing no error.
    pub fn new() -> (form: LoginForm)
        ensures
            form@ == (LoginFormView { username: Seq::empty(), password: Seq::empty(), error: None, is_login: true }),
    {
        LoginForm { username: String::new(), password: String::new(), error: None, is_login: true }
    }

    /// Switches between logging in and registering.
    pub fn toggle(&mut self)
        ensures
            final(self)@ == (LoginFormView { is_login: !old(self).is_login, ..old(self)@ }),
    {
        self.is_login = !self.is_login;
    }

    /// Sets the typed user name.
    pub fn set_username(&mut self, username: String)
        ensures
            final(self)@ == (LoginFormView { username: username@, ..old(self)@ }),
    {
        self.username = username;
    }

    /// Sets the typed password.
    pub fn set_password(&mut self, password: String)
        ensures
            final(self)@ == (LoginFormView { password: password@, ..old(self)@ }),
    {
        self.password = password;
    }

    /// What submitting the form sends: the login or registration address,
    /// and the typed user name and password.
    pub fn request(&self) -> (sent: (String, AuthRequest))
        ensures
            sent.0@ == auth_address(self.is_login),
            sent.1.username@ == self.username@,
            sent.1.password@ == self.password@,
    {
        let url = auth_url(self.is_login);
        (url, AuthRequest { username: self.username.clone(), password: self.password.clone() })
    }

    /// Takes in the answer to a request sent for `submitted` (the user name
    /// it carried). A 200 answer logs that user in: the name is returned and
    /// the form is left as it is. Any other answer shows its body text (or
    /// "Unknown error" when the body could not be read), and a failed
    /// request shows why it failed.
    pub fn take_answer(&mut self, submitted: String, answer: AuthAnswer) -> (logged_in: Option<String>)
        ensures
            answer_error(answer) is None ==> (logged_in matches Some(name) && name@ == submitted@ && final(self)@
                == old(self)@),
            answer_error(answer) matches Some(message) ==> (logged_in is None && final(self)@ == (LoginFormView {
                error: Some(message),
                ..old(self)@
            })),
            logged_in is Some <==> (answer matches AuthAnswer::Answered { code, .. } && code == 200),
            match answer {
                AuthAnswer::Answered { code, body } => code != 200 ==> match body {
                    Some(text) => final(self)@.error == Some(text@),
                    None => final(self)@.error is Some,
                },
                AuthAnswer::Failed(reason) => final(self)@.error == Some(reason@),
            },
    {
        proof {
            lemma_only_ok_status_logs_in(answer);
        }
        match answer {
            AuthAnswer::Answered { code, body } => {
                if code == 200 {
                    Some(submitted)
                } else {
                    let message = match body {
                        Some(text) => text,
                        None => String::from_str("Unknown error"),
                    };
                    self.error = Some(message);
                    None
                }
            },
            AuthAnswer::Failed(reason) => {
                self.error = Some(reason);
                None
            },
        }
    }

    /// The form's heading and the label of its submit button.
    pub fn title(&self) -> (text: &'static str)
        ensures
            text@ == form_title(self.is_login),
    {
        if self.is_login {
            "Login"
        } else {
            "Register"
        }
    }

    /// The label of the button that switches between logging in and registering.
    pub fn switch_label(&self) -> (text: &'static str)
        ensures
            text@ == switch_label(self.is_login),
    {
        if self.is_login {
            "Need an account? Register"
        } else {
            "Already have an account? Login"
        }
    }
}

} // verus!
