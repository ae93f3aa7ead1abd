use applyforge::analytics::count_by_status;
use applyforge::ids::new_temp_id;
use applyforge::login_form::{AuthAnswer, LoginForm};
use applyforge::status::ApplicationStatus;
use applyforge::tracker::{JobApplication, SubmitOutcome, Tracker};

fn client_job(temp_id: u128, company: &str, status: ApplicationStatus) -> JobApplication {
    JobApplication {
        id: None,
        temp_id,
        company: company.to_string(),
        position: "Dev".to_string(),
        status,
        date: "2024-05-05".to_string(),
        username: "alice".to_string(),
    }
}

fn logged_in_tracker() -> Tracker {
    let mut tracker = Tracker::new(None, "2024-05-06".to_string());
    let url = tracker.log_in("alice".to_string());
    assert_eq!(url, "http://127.0.0.1:8080/api/jobs/alice");
    tracker
}

#[test]
fn fresh_ids_are_never_nil() {
    let a = new_temp_id();
    let b = new_temp_id();
    assert_ne!(a, 0);
    assert_ne!(b, 0);
    assert_ne!(a, b);
    let bits: u128 = 0x4000_8000_0000_0000_0000;
    assert_eq!(a & bits, bits);
    assert_eq!(b & bits, bits);
}

#[test]
fn new_tracker_starts_empty() {
    let tracker = Tracker::new(Some("bob".to_string()), "2024-05-06".to_string());
    assert_eq!(tracker.user.as_deref(), Some("bob"));
    assert!(tracker.applications.is_empty());
    assert_eq!(tracker.company, "");
    assert_eq!(tracker.position, "");
    assert_eq!(tracker.status, ApplicationStatus::Applied);
    assert_eq!(tracker.date, "2024-05-06");
}

#[test]
fn submit_without_user_is_refused() {
    let mut tracker = Tracker::new(None, "2024-05-06".to_string());
    tracker.set_company("Acme".to_string());
    match tracker.submit() {
        SubmitOutcome::Refused(message) => assert_eq!(message, "You must be logged in to add a job."),
        SubmitOutcome::Post(_) => panic!("nobody is logged in"),
    }
    assert!(tracker.applications.is_empty());
    assert_eq!(tracker.company, "Acme");
}

#[test]
fn submit_adds_pending_job_and_resets_form() {
    let mut tracker = logged_in_tracker();
    tracker.set_company("Acme".to_string());
    tracker.set_position("Engineer".to_string());
    tracker.select_status("Interview");
    tracker.set_date("2024-04-01".to_string());
    let posted = match tracker.submit() {
        SubmitOutcome::Post(job) => job,
        SubmitOutcome::Refused(_) => panic!("alice is logged in"),
    };
    assert_eq!(posted.id, None);
    assert_ne!(posted.temp_id, 0);
    assert_eq!(posted.temp_id & 0x4000_8000_0000_0000_0000u128, 0x4000_8000_0000_0000_0000u128);
    assert_eq!(posted.company, "Acme");
    assert_eq!(posted.position, "Engineer");
    assert_eq!(posted.status, ApplicationStatus::Interview);
    assert_eq!(posted.date, "2024-04-01");
    assert_eq!(posted.username, "alice");
    assert_eq!(tracker.applications.len(), 1);
    assert_eq!(tracker.applications[0].temp_id, posted.temp_id);
    assert_eq!(tracker.company, "");
    assert_eq!(tracker.position, "");
    assert_eq!(tracker.date, "2024-05-06");
    assert_eq!(tracker.status, ApplicationStatus::Interview);
}

#[test]
fn confirm_replaces_pending_entry() {
    let mut tracker = logged_in_tracker();
    tracker.applications.push(client_job(7, "Old", ApplicationStatus::Applied));
    tracker.set_company("Acme".to_string());
    let posted = match tracker.submit() {
        SubmitOutcome::Post(job) => job,
        SubmitOutcome::Refused(_) => panic!("alice is logged in"),
    };
    let mut confirmed = client_job(0, "Acme", ApplicationStatus::Applied);
    confirmed.id = Some(31);
    assert!(tracker.confirm(posted.temp_id, confirmed));
    assert_eq!(tracker.applications.len(), 2);
    assert_eq!(tracker.applications[0].company, "Old");
    assert_eq!(tracker.applications[1].id, Some(31));
    assert_eq!(tracker.applications[1].temp_id, posted.temp_id);
}

#[test]
fn confirm_keeps_an_id_the_service_sent() {
    let mut tracker = logged_in_tracker();
    tracker.applications.push(client_job(5, "Acme", ApplicationStatus::Applied));
    tracker.applications.push(client_job(5, "Twin", ApplicationStatus::Applied));
    let mut confirmed = client_job(99, "Acme", ApplicationStatus::Offer);
    confirmed.id = Some(2);
    assert!(tracker.confirm(5, confirmed));
    assert_eq!(tracker.applications[0].temp_id, 99);
    assert_eq!(tracker.applications[0].status, ApplicationStatus::Offer);
    assert_eq!(tracker.applications[1].company, "Twin");
}

#[test]
fn confirm_of_missing_entry_changes_nothing() {
    let mut tracker = logged_in_tracker();
    tracker.applications.push(client_job(5, "Acme", ApplicationStatus::Applied));
    assert!(!tracker.confirm(6, client_job(0, "Other", ApplicationStatus::Offer)));
    assert_eq!(tracker.applications.len(), 1);
    assert_eq!(tracker.applications[0].company, "Acme");
}

#[test]
fn discard_undoes_failed_submission() {
    let mut tracker = logged_in_tracker();
    tracker.applications.push(client_job(1, "A", ApplicationStatus::Applied));
    tracker.applications.push(client_job(2, "B", ApplicationStatus::Offer));
    tracker.set_company("C".to_string());
    let posted = match tracker.submit() {
        SubmitOutcome::Post(job) => job,
        SubmitOutcome::Refused(_) => panic!("alice is logged in"),
    };
    assert_eq!(tracker.applications.len(), 3);
    tracker.discard(posted.temp_id);
    let companies: Vec<&str> = tracker.applications.iter().map(|j| j.company.as_str()).collect();
    assert_eq!(companies, vec!["A", "B"]);
}

#[test]
fn discard_removes_every_entry_with_the_id() {
    let mut tracker = logged_in_tracker();
    tracker.applications.push(client_job(4, "A", ApplicationStatus::Applied));
    tracker.applications.push(client_job(3, "B", ApplicationStatus::Applied));
    tracker.applications.push(client_job(4, "C", ApplicationStatus::Applied));
    tracker.discard(4);
    assert_eq!(tracker.applications.len(), 1);
    assert_eq!(tracker.applications[0].company, "B");
    tracker.discard(8);
    assert_eq!(tracker.applications.len(), 1);
}

#[test]
fn loaded_jobs_get_client_ids() {
    let mut tracker = logged_in_tracker();
    tracker.jobs_loaded(vec![client_job(0, "A", ApplicationStatus::Applied), client_job(12, "B", ApplicationStatus::Offer)]);
    assert_eq!(tracker.applications.len(), 2);
    assert_ne!(tracker.applications[0].temp_id, 0);
    assert_eq!(tracker.applications[0].company, "A");
    assert_eq!(tracker.applications[1].temp_id, 12);
}

#[test]
fn log_out_forgets_user_and_list() {
    let mut tracker = logged_in_tracker();
    tracker.applications.push(client_job(1, "A", ApplicationStatus::Applied));
    tracker.log_out();
    assert!(tracker.user.is_none());
    assert!(tracker.applications.is_empty());
}

#[test]
fn unknown_selection_means_applied() {
    let mut tracker = logged_in_tracker();
    tracker.select_status("Offer");
    assert_eq!(tracker.status, ApplicationStatus::Offer);
    tracker.select_status("something else");
    assert_eq!(tracker.status, ApplicationStatus::Applied);
}

#[test]
fn counts_list_present_statuses_in_order() {
    let counts = count_by_status(&vec![
        ApplicationStatus::Offer,
        ApplicationStatus::Applied,
        ApplicationStatus::Offer,
        ApplicationStatus::Accepted,
    ]);
    assert_eq!(
        counts,
        vec![(ApplicationStatus::Applied, 1), (ApplicationStatus::Offer, 2), (ApplicationStatus::Accepted, 1)]
    );
    assert!(count_by_status(&Vec::new()).is_empty());
}

#[test]
fn counts_add_up_to_the_list_length() {
    let mut tracker = logged_in_tracker();
    let statuses = [
        ApplicationStatus::Rejected,
        ApplicationStatus::Interview,
        ApplicationStatus::Rejected,
        ApplicationStatus::Applied,
        ApplicationStatus::Rejected,
    ];
    for (i, status) in statuses.iter().enumerate() {
        tracker.applications.push(client_job(i as u128 + 1, "X", *status));
    }
    let counts = tracker.status_counts();
    let total: usize = counts.iter().map(|(_, n)| *n).sum();
    assert_eq!(total, statuses.len());
    assert_eq!(
        counts,
        vec![(ApplicationStatus::Applied, 1), (ApplicationStatus::Interview, 1), (ApplicationStatus::Rejected, 3)]
    );
}

#[test]
fn login_form_switches_route() {
    let mut form = LoginForm::new();
    assert!(form.is_login);
    assert_eq!(form.title(), "Login");
    assert_eq!(form.switch_label(), "Need an account? Register");
    form.set_username("zoe".to_string());
    form.set_password("pw".to_string());
    let (url, request) = form.request();
    assert_eq!(url, "http://127.0.0.1:8080/api/login");
    assert_eq!(request.username, "zoe");
    assert_eq!(request.password, "pw");
    form.toggle();
    assert_eq!(form.title(), "Register");
    assert_eq!(form.switch_label(), "Already have an account? Login");
    assert_eq!(form.request().0, "http://127.0.0.1:8080/api/register");
}

#[test]
fn login_form_answers() {
    let mut form = LoginForm::new();
    let ok = form.take_answer("zoe".to_string(), AuthAnswer::Answered { code: 200, body: None });
    assert_eq!(ok.as_deref(), Some("zoe"));
    assert!(form.error.is_none());

    let refused = form.take_answer(
        "zoe".to_string(),
        AuthAnswer::Answered { code: 401, body: Some("{\"success\":false}".to_string()) },
    );
    assert!(refused.is_none());
    assert_eq!(form.error.as_deref(), Some("{\"success\":false}"));

    let unread = form.take_answer("zoe".to_string(), AuthAnswer::Answered { code: 500, body: None });
    assert!(unread.is_none());
    assert_eq!(form.error.as_deref(), Some("Unknown error"));

    let failed = form.take_answer("zoe".to_string(), AuthAnswer::Failed("network down".to_string()));
    assert!(failed.is_none());
    assert_eq!(form.error.as_deref(), Some("network down"));
}
