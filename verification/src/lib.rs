//! Verified core of a job-application tracker: account registration and
//! login decisions, the stored form of job applications, per-status
//! analytics and the client-side list of applications.

pub mod status;
pub mod text;
pub mod models;
pub mod password;
pub mod auth;
pub mod jobs;
pub mod analytics;
pub mod ids;
pub mod client;
pub mod tracker;
pub mod login_form;
