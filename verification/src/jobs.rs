//! Job applications as the service stores them and hands them back.
//!
//! A job is stored as a row whose status is the status's name; reading a row
//! back turns the name into the status again, and an unknown name reads as
//! `Applied`.

use vstd::prelude::*;
use vstd::string::*;
use crate::models::{JobApplication, JobView};
use crate::status::{parse_status, status_from_text, status_text};

verus! {

/// A stored job row, as the database returns it.
pub struct JobRecord {
    pub id: i32,
    pub company: String,
    pub position: String,
    pub status: String,
    pub date: String,
    pub username: String,
}

/// The columns of a job row to insert; the database assigns the id.
pub struct NewJobRecord {
    pub company: String,
    pub position: String,
    pub status: String,
    pub date: String,
    pub username: String,
}

/// The plain value of a stored job row.
pub struct JobRecordView {
    pub id: i32,
    pub company: Seq<char>,
    pub position: Seq<char>,
    pub status: Seq<char>,
    pub date: Seq<char>,
    pub username: Seq<char>,
}

/// The plain value of a job row to insert.
pub struct NewJobRecordView {
    pub company: Seq<char>,
    pub position: Seq<char>,
    pub status: Seq<char>,
    pub date: Seq<char>,
    pub username: Seq<char>,
}

impl View for JobRecord {
    type V = JobRecordView;

    open spec fn view(&self) -> JobRecordView {
        JobRecordView {
            id: self.id,
            company: self.company@,
            position: self.position@,
            status: self.status@,
            date: self.date@,
            username: self.username@,
        }
    }
}

impl View for NewJobRecord {
    type V = NewJobRecordView;

    open spec fn view(&self) -> NewJobRecordView {
        NewJobRecordView {
            company: self.company@,
            position: self.position@,
            status: self.status@,
            date: self.date@,
            username: self.username@,
        }
    }
}

/// The row that stores a job: its fields, with the status by name.
pub open spec fn record_of_job(job: JobView) -> NewJobRecordView {
    NewJobRecordView {
        company: job.company,
        position: job.position,
        status: status_text(job.status),
        date: job.date,
        username: job.username,
    }
}

/// The row the database holds after inserting `row` under `id`.
pub open spec fn stored_record(row: NewJobRecordView, id: i32) -> JobRecordView {
    JobRecordView {
        id,
        company: row.company,
        position: row.position,
        status: row.status,
        date: row.date,
        username: row.username,
    }
}

/// The job a stored row reads as.
pub open spec fn job_of_record(record: JobRecordView) -> JobView {
    JobView {
        id: record.id as usize,
        company: record.company,
        position: record.position,
        status: status_from_text(record.status),
        date: record.date,
        username: record.username,
    }
}

/// What the service answers on the job routes.
pub enum JobsReply {
    /// The job as stored, with the id the database gave it.
    Job(JobApplication),
    /// The jobs of a user.
    Jobs(Vec<JobApplication>),
    /// The database failed; no body.
    InternalServerError,
}

/// The row that stores a job; the job's own id is not stored.
pub fn record_for_insert(job: JobApplication) -> (row: NewJobRecord)
    ensures
        row@ == record_of_job(job@),
{
    NewJobRecord {
        company: job.company,
        position: job.position,
        status: String::from_str(job.status.label()),
        date: job.date,
        username: job.username,
    }
}

/// The job a stored row reads as.
pub fn job_from_record(record: JobRecord) -> (job: JobApplication)
    ensures
        job@ == job_of_record(record@),
{
    let status = parse_status(record.status.as_str());
    JobApplication {
        id: record.id as usize,
        company: record.company,
        position: record.position,
        status,
        date: record.date,
        username: record.username,
    }
}

/// The jobs that stored rows read as, in the same order.
pub fn jobs_from_records(records: Vec<JobRecord>) -> (jobs: Vec<JobApplication>)
    ensures
        jobs@.len() == records@.len(),
        forall|i: int| 0 <= i < records@.len() ==> #[trigger] jobs@[i]@ == job_of_record(records@[i]@),
{
    let ghost rows = records@;
    let mut jobs: Vec<JobApplication> = Vec::new();
    for record in it: records
        invariant
            it.seq() == rows,
            jobs@.len() == it.index(),
            forall|i: int| 0 <= i < it.index() ==> #[trigger] jobs@[i]@ == job_of_record(rows[i]@),
    {
        jobs.push(job_from_record(record));
    }
    jobs
}

/// The answer to adding a job, given the id the database assigned to its row
/// (`None`: the insert failed): the job with that id, or an internal error.
pub fn add_job_reply(job: JobApplication, inserted_id: Option<i32>) -> (reply: JobsReply)
    ensures
        inserted_id is None ==> reply is InternalServerError,
        inserted_id matches Some(id) ==> (reply matches JobsReply::Job(stored) && stored@ == JobView {
            id: id as usize,
            ..job@
        }),
{
    match inserted_id {
        None => JobsReply::InternalServerError,
        Some(id) => {
            let mut stored = job;
            stored.id = id as usize;
            JobsReply::Job(stored)
        },
    }
}

/// The answer to listing a user's jobs, given the stored rows (`None`: the
/// query failed).
pub fn list_jobs_reply(records: Option<Vec<JobRecord>>) -> (reply: JobsReply)
    ensures
        records is None ==> reply is InternalServerError,
        records matches Some(rows) ==> (reply matches JobsReply::Jobs(jobs) && jobs@.len() == rows@.len()
            && forall|i: int| 0 <= i < rows@.len() ==> #[trigger] jobs@[i]@ == job_of_record(rows@[i]@)),
{
    match records {
        None => JobsReply::InternalServerError,
        Some(rows) => JobsReply::Jobs(jobs_from_records(rows)),
    }
}

/// Storing a job under the id the database assigns, then reading the row
/// back, gives the job the service answered when it was added: the same
/// fields and status, and that id.
pub proof fn lemma_stored_job_reads_back(job: JobView, id: i32)
    ensures
        job_of_record(stored_record(record_of_job(job), id)) == (JobView { id: id as usize, ..job }),
{
    crate::status::lemma_status_text_round_trip(job.status);
}

} // verus!
