use applyforge::status::{parse_status, ApplicationStatus};
use applyforge::text::{format_date, same_text};
use applyforge::client::{auth_url, jobs_url, new_job_url};

const ALL: [ApplicationStatus; 5] = [
    ApplicationStatus::Applied,
    ApplicationStatus::Interview,
    ApplicationStatus::Offer,
    ApplicationStatus::Rejected,
    ApplicationStatus::Accepted,
];

#[test]
fn labels_are_variant_names() {
    assert_eq!(ApplicationStatus::Applied.label(), "Applied");
    assert_eq!(ApplicationStatus::Interview.label(), "Interview");
    assert_eq!(ApplicationStatus::Offer.label(), "Offer");
    assert_eq!(ApplicationStatus::Rejected.label(), "Rejected");
    assert_eq!(ApplicationStatus::Accepted.label(), "Accepted");
}

#[test]
fn label_reads_back_as_its_status() {
    for status in ALL {
        assert_eq!(parse_status(status.label()), status);
    }
}

#[test]
fn labels_match_debug_names() {
    for status in ALL {
        assert_eq!(format!("{:?}", status), status.label());
    }
}

#[test]
fn unknown_status_text_reads_as_applied() {
    assert_eq!(parse_status(""), ApplicationStatus::Applied);
    assert_eq!(parse_status("offer"), ApplicationStatus::Applied);
    assert_eq!(parse_status("Offer "), ApplicationStatus::Applied);
    assert_eq!(parse_status("Ghosted"), ApplicationStatus::Applied);
}

#[test]
fn same_text_compares_characters() {
    assert!(same_text("", ""));
    assert!(same_text("Rejected", "Rejected"));
    assert!(!same_text("Rejected", "Accepted"));
    assert!(!same_text("Offer", "Offers"));
    assert!(same_text("héllo", "héllo"));
}

#[test]
fn dates_are_zero_padded() {
    assert_eq!(format_date(2024, 0, 5), "2024-01-05");
    assert_eq!(format_date(2023, 11, 31), "2023-12-31");
    assert_eq!(format_date(987, 8, 9), "0987-09-09");
    assert_eq!(format_date(0, 0, 0), "0000-01-00");
    assert_eq!(format_date(12345, 9, 10), "12345-10-10");
}

#[test]
fn client_addresses() {
    assert_eq!(jobs_url("alice"), "http://127.0.0.1:8080/api/jobs/alice");
    assert_eq!(new_job_url(), "http://127.0.0.1:8080/api/jobs");
    assert_eq!(auth_url(true), "http://127.0.0.1:8080/api/login");
    assert_eq!(auth_url(false), "http://127.0.0.1:8080/api/register");
}
