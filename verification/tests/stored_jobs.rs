use applyforge::jobs::{add_job_reply, job_from_record, jobs_from_records, list_jobs_reply, record_for_insert, JobRecord, JobsReply};
use applyforge::models::JobApplication;
use applyforge::status::ApplicationStatus;

fn job(company: &str, status: ApplicationStatus) -> JobApplication {
    JobApplication {
        id: 0,
        company: company.to_string(),
        position: "Engineer".to_string(),
        status,
        date: "2024-03-01".to_string(),
        username: "alice".to_string(),
    }
}

fn record(id: i32, status: &str) -> JobRecord {
    JobRecord {
        id,
        company: "Acme".to_string(),
        position: "Engineer".to_string(),
        status: status.to_string(),
        date: "2024-03-01".to_string(),
        username: "alice".to_string(),
    }
}

#[test]
fn insert_row_stores_status_by_name() {
    let row = record_for_insert(job("Acme", ApplicationStatus::Interview));
    assert_eq!(row.company, "Acme");
    assert_eq!(row.position, "Engineer");
    assert_eq!(row.status, "Interview");
    assert_eq!(row.date, "2024-03-01");
    assert_eq!(row.username, "alice");
}

#[test]
fn stored_row_reads_back() {
    let read = job_from_record(record(42, "Rejected"));
    assert_eq!(read.id, 42);
    assert_eq!(read.company, "Acme");
    assert_eq!(read.status, ApplicationStatus::Rejected);
    assert_eq!(read.username, "alice");
}

#[test]
fn unknown_stored_status_reads_as_applied() {
    assert_eq!(job_from_record(record(1, "Pending")).status, ApplicationStatus::Applied);
}

#[test]
fn stored_job_round_trip() {
    for status in [ApplicationStatus::Applied, ApplicationStatus::Offer, ApplicationStatus::Accepted] {
        let row = record_for_insert(job("Initech", status));
        let stored = JobRecord {
            id: 9,
            company: row.company,
            position: row.position,
            status: row.status,
            date: row.date,
            username: row.username,
        };
        let read = job_from_record(stored);
        assert_eq!(read.id, 9);
        assert_eq!(read.company, "Initech");
        assert_eq!(read.status, status);
    }
}

#[test]
fn add_job_takes_the_assigned_id() {
    match add_job_reply(job("Acme", ApplicationStatus::Offer), Some(17)) {
        JobsReply::Job(stored) => {
            assert_eq!(stored.id, 17);
            assert_eq!(stored.company, "Acme");
            assert_eq!(stored.status, ApplicationStatus::Offer);
        },
        _ => panic!("expected the stored job"),
    }
    assert!(matches!(add_job_reply(job("Acme", ApplicationStatus::Offer), None), JobsReply::InternalServerError));
}

#[test]
fn listing_keeps_row_order() {
    let jobs = jobs_from_records(vec![record(3, "Offer"), record(1, "Applied"), record(2, "Interview")]);
    let ids: Vec<usize> = jobs.iter().map(|j| j.id).collect();
    assert_eq!(ids, vec![3, 1, 2]);
    assert_eq!(jobs[0].status, ApplicationStatus::Offer);
    assert_eq!(jobs[2].status, ApplicationStatus::Interview);
    assert!(jobs_from_records(Vec::new()).is_empty());
}

#[test]
fn list_reply_cases() {
    assert!(matches!(list_jobs_reply(None), JobsReply::InternalServerError));
    match list_jobs_reply(Some(vec![record(5, "Accepted")])) {
        JobsReply::Jobs(jobs) => {
            assert_eq!(jobs.len(), 1);
            assert_eq!(jobs[0].status, ApplicationStatus::Accepted);
        },
        _ => panic!("expected the jobs"),
    }
}
