//! The browser client's state: who is logged in, the list of applications
//! (including ones the service has not confirmed yet), and the form for a new
//! application.
//!
//! A new application is shown at once under a fresh client id and posted to
//! the service; when the service answers, the entry is replaced by the
//! confirmed job, and when the post fails, the entry is taken out again.

use vstd::prelude::*;
use vstd::string::*;
use crate::analytics::{count_by_status, tally};
use crate::client::{jobs_address, jobs_url};
use crate::ids::{is_v4_id, new_temp_id};
use crate::status::{parse_status, status_from_text, ApplicationStatus};

verus! {

/// A job application as the client holds it: the service's id once it has
/// one, and a client id that tells entries apart before that (0 is nil).
pub struct JobApplication {
    pub id: Option<i32>,
    pub temp_id: u128,
    pub company: String,
    pub position: String,
    pub status: ApplicationStatus,
    pub date: String,
    pub username: String,
}

/// The plain value of a client-side job application.
pub struct TrackedJobView {
    pub id: Option<i32>,
    pub temp_id: u128,
    pub company: Seq<char>,
    pub position: Seq<char>,
    pub status: ApplicationStatus,
    pub date: Seq<char>,
    pub username: Seq<char>,
}

impl View for JobApplication {
    type V = TrackedJobView;

    open spec fn view(&self) -> TrackedJobView {
        TrackedJobView {
            id: self.id,
            temp_id: self.temp_id,
            company: self.company@,
            position: self.position@,
            status: self.status,
            date: self.date@,
            username: self.username@,
        }
    }
}

/// The plain values of a list of applications.
pub open spec fn job_views(jobs: Seq<JobApplication>) -> Seq<TrackedJobView> {
    jobs.map_values(|j: JobApplication| j@)
}

/// The statuses of a list of applications.
pub open spec fn statuses_of(jobs: Seq<TrackedJobView>) -> Seq<ApplicationStatus> {
    jobs.map_values(|j: TrackedJobView| j.status)
}

/// The list without the entries under client id `temp_id`.
pub open spec fn without_temp_id(jobs: Seq<TrackedJobView>, temp_id: u128) -> Seq<TrackedJobView> {
    jobs.filter(|j: TrackedJobView| j.temp_id != temp_id)
}

/// Whether some entry of the list carries client id `temp_id`.
pub open spec fn has_temp_id(jobs: Seq<TrackedJobView>, temp_id: u128) -> bool {
    exists|i: int| 0 <= i < jobs.len() && jobs[i].temp_id == temp_id
}

/// Whether entry `i` is the first under client id `temp_id`.
pub open spec fn first_with_temp_id(jobs: Seq<TrackedJobView>, temp_id: u128, i: int) -> bool {
    &&& 0 <= i < jobs.len()
    &&& jobs[i].temp_id == temp_id
    &&& forall|j: int| 0 <= j < i ==> jobs[j].temp_id != temp_id
}

/// A confirmed job as it takes an entry's place: it keeps the entry's client
/// id when it carries none of its own.
pub open spec fn confirmed_entry(confirmed: TrackedJobView, temp_id: u128) -> TrackedJobView {
    if confirmed.temp_id == 0 {
        TrackedJobView { temp_id, ..confirmed }
    } else {
        confirmed
    }
}

/// A fetched job as the list holds it: a nil client id is replaced by a
/// fresh random version-4 id, any other is kept.
pub open spec fn loaded_entry(fetched: TrackedJobView, loaded: TrackedJobView) -> bool {
    &&& loaded == TrackedJobView { temp_id: loaded.temp_id, ..fetched }
    &&& loaded.temp_id != 0
    &&& fetched.temp_id != 0 ==> loaded.temp_id == fetched.temp_id
    &&& fetched.temp_id == 0 ==> is_v4_id(loaded.temp_id)
}

/// No one logged in means no applications listed.
pub open spec fn signed_out_empty(state: TrackerView) -> bool {
    state.user is None ==> state.applications.len() == 0
}

/// A loaded entry is the fetched job: the service id, company, position,
/// status, date and user are the fetched ones; only a nil client id is
/// replaced, by a random version-4 id, and any other is kept.
pub proof fn lemma_loaded_entry_keeps_job(fetched: TrackedJobView, loaded: TrackedJobView)
    requires
        loaded_entry(fetched, loaded),
    ensures
        loaded.id == fetched.id,
        loaded.company == fetched.company,
        loaded.position == fetched.position,
        loaded.status == fetched.status,
        loaded.date == fetched.date,
        loaded.username == fetched.username,
        fetched.temp_id != 0 ==> loaded.temp_id == fetched.temp_id,
        fetched.temp_id == 0 ==> loaded.temp_id != 0 && is_v4_id(loaded.temp_id),
{
}

/// The entry that replaces a pending one is the confirmed job: its service
/// id, company, position, status, date and user; it keeps the pending
/// entry's client id only when the confirmed job carries a nil one.
pub proof fn lemma_confirmed_entry_is_confirmed_job(confirmed: TrackedJobView, temp_id: u128)
    ensures
        confirmed_entry(confirmed, temp_id).id == confirmed.id,
        confirmed_entry(confirmed, temp_id).company == confirmed.company,
        confirmed_entry(confirmed, temp_id).position == confirmed.position,
        confirmed_entry(confirmed, temp_id).status == confirmed.status,
        confirmed_entry(confirmed, temp_id).date == confirmed.date,
        confirmed_entry(confirmed, temp_id).username == confirmed.username,
        confirmed_entry(confirmed, temp_id).temp_id == if confirmed.temp_id == 0 {
            temp_id
        } else {
            confirmed.temp_id
        },
{
}

/// The client's state.
pub struct Tracker {
    /// Who is logged in.
    pub user: Option<String>,
    /// The applications shown, in the order they were listed or added.
    pub applications: Vec<JobApplication>,
    /// The new-application form.
    pub company: String,
    pub position: String,
    pub status: ApplicationStatus,
    pub date: String,
    /// Today's date, which the form's date returns to after a submission.
    pub today: String,
}

/// The plain value of the client's state.
pub struct TrackerView {
    pub user: Option<Seq<char>>,
    pub applications: Seq<TrackedJobView>,
    pub company: Seq<char>,
    pub position: Seq<char>,
    pub status: ApplicationStatus,
    pub date: Seq<char>,
    pub today: Seq<char>,
}

/// The plain value of an optional text.
pub open spec fn text_view(text: Option<String>) -> Option<Seq<char>> {
    match text {
        Some(t) => Some(t@),
        None => None,
    }
}

impl View for Tracker {
    type V = TrackerView;

    open spec fn view(&self) -> TrackerView {
        TrackerView {
            user: text_view(self.user),
            applications: job_views(self.applications@),
            company: self.company@,
            position: self.position@,
            status: self.status,
            date: self.date@,
            today: self.today@,
        }
    }
}

/// The message shown when a job is submitted while no one is logged in.
pub open spec fn message_login_required() -> Seq<char> {
    "You must be logged in to add a job."@
}

/// What a submission of the form leads to.
pub enum SubmitOutcome {
    /// No one is logged in: show this message; nothing changed.
    Refused(String),
    /// Post this job to the service; it is already in the list.
    Post(JobApplication),
}

fn copy_text(text: &String) -> (copy: String)
    ensures
        copy@ == text@,
{
    text.clone()
}

fn copy_job(job: &JobApplication) -> (copy: JobApplication)
    ensures
        copy@ == job@,
{
    JobApplication {
        id: job.id,
        temp_id: job.temp_id,
        company: copy_text(&job.company),
        position: copy_text(&job.position),
        status: job.status,
        date: copy_text(&job.date),
        username: copy_text(&job.username),
    }
}

impl Tracker {
    /// The state on start: the remembered user if any, no applications, an
    /// empty form with status `Applied` and today's date.
    pub fn new(user: Option<String>, today: String) -> (tracker: Tracker)
        ensures
            signed_out_empty(tracker@),
            tracker@ == (TrackerView {
                user: text_view(user),
                applications: Seq::empty(),
                company: Seq::empty(),
                position: Seq::empty(),
                status: ApplicationStatus::Applied,
                date: today@,
                today: today@,
            }),
    {
        let date = copy_text(&today);
        let tracker = Tracker {
            user,
            applications: Vec::new(),
            company: String::new(),
            position: String::new(),
            status: ApplicationStatus::Applied,
            date,
            today,
        };
        assert(job_views(tracker.applications@) =~= Seq::<TrackedJobView>::empty());
        tracker
    }

    /// A user logged in; returns the address to fetch their jobs from.
    pub fn log_in(&mut self, username: String) -> (url: String)
        ensures
            signed_out_empty(old(self)@) ==> signed_out_empty(final(self)@),
            final(self)@ == (TrackerView { user: Some(username@), ..old(self)@ }),
            url@ == jobs_address(username@),
    {
        let url = jobs_url(username.as_str());
        self.user = Some(username);
        url
    }

    /// The user logged out: no one is logged in and the list is emptied.
    pub fn log_out(&mut self)
        ensures
            signed_out_empty(final(self)@),
            final(self)@ == (TrackerView { user: None, applications: Seq::empty(), ..old(self)@ }),
    {
        self.user = None;
        self.applications = Vec::new();
        assert(job_views(self.applications@) =~= Seq::<TrackedJobView>::empty());
    }

    /// The jobs of the logged-in user arrived: they replace the list, each
    /// entry with a nil client id getting a fresh one.
    pub fn jobs_loaded(&mut self, fetched: Vec<JobApplication>)
        ensures
            final(self)@ == (TrackerView { applications: final(self)@.applications, ..old(self)@ }),
            final(self)@.applications.len() == fetched@.len(),
            forall|i: int|
                0 <= i < fetched@.len() ==> loaded_entry(fetched@[i]@, #[trigger] final(self)@.applications[i]),
            forall|i: int|
                0 <= i < fetched@.len() ==> {
                    let (f, l) = (fetched@[i]@, #[trigger] final(self)@.applications[i]);
                    &&& l.id == f.id
                    &&& l.company == f.company
                    &&& l.position == f.position
                    &&& l.status == f.status
                    &&& l.date == f.date
                    &&& l.username == f.username
                },
    {
        let ghost incoming = fetched@;
        let mut loaded: Vec<JobApplication> = Vec::new();
        for job in it: fetched
            invariant
                it.seq() == incoming,
                loaded@.len() == it.index(),
                forall|i: int| 0 <= i < it.index() ==> loaded_entry(incoming[i]@, #[trigger] loaded@[i]@),
        {
            let mut job = job;
            if job.temp_id == 0 {
                job.temp_id = new_temp_id();
            }
            loaded.push(job);
        }
        self.applications = loaded;
        proof {
            assert forall|i: int| 0 <= i < incoming.len() implies loaded_entry(incoming[i]@, job_views(self.applications@)[i]) by {
                assert(job_views(self.applications@)[i] == self.applications@[i]@);
            }
            assert forall|i: int| 0 <= i < incoming.len() implies #[trigger] job_views(self.applications@)[i].status == incoming[i]@.status by {
                lemma_loaded_entry_keeps_job(incoming[i]@, job_views(self.applications@)[i]);
            }
        }
        assert forall|i: int| 0 <= i < incoming.len() implies loaded_entry(
            incoming[i]@,
            #[trigger] job_views(self.applications@)[i],
        ) by {
            assert(job_views(self.applications@)[i] == self.applications@[i]@);
        }
    }

    /// Sets the company field of the form.
    pub fn set_company(&mut self, company: String)
        ensures
            signed_out_empty(old(self)@) ==> signed_out_empty(final(self)@),
            final(self)@ == (TrackerView { company: company@, ..old(self)@ }),
    {
        self.company = company;
    }

    /// Sets the position field of the form.
    pub fn set_position(&mut self, position: String)
        ensures
            signed_out_empty(old(self)@) ==> signed_out_empty(final(self)@),
            final(self)@ == (TrackerView { position: position@, ..old(self)@ }),
    {
        self.position = position;
    }

    /// Sets the date field of the form.
    pub fn set_date(&mut self, date: String)
        ensures
            signed_out_empty(old(self)@) ==> signed_out_empty(final(self)@),
            final(self)@ == (TrackerView { date: date@, ..old(self)@ }),
    {
        self.date = date;
    }

    /// Sets the status of the form from the selected option's value; an
    /// unknown value selects `Applied`.
    pub fn select_status(&mut self, value: &str)
        ensures
            signed_out_empty(old(self)@) ==> signed_out_empty(final(self)@),
            final(self)@ == (TrackerView { status: status_from_text(value@), ..old(self)@ }),
    {
        self.status = parse_status(value);
    }

    /// Submits the form. With someone logged in, a job made of the form's
    /// fields, without service id and under a fresh client id, is added to
    /// the list and handed back to be posted; the company and position fields
    /// are cleared and the date returns to today (the status stays). With no
    /// one logged in nothing changes and a message says why.
    pub fn submit(&mut self) -> (outcome: SubmitOutcome)
        ensures
            signed_out_empty(old(self)@) ==> signed_out_empty(final(self)@),
            old(self).user is None ==> {
                &&& final(self)@ == old(self)@
                &&& outcome matches SubmitOutcome::Refused(message) && message@ == message_login_required()
            },
            old(self).user matches Some(user) ==> (outcome matches SubmitOutcome::Post(job) && {
                &&& job@ == (TrackedJobView {
                    id: None,
                    temp_id: job.temp_id,
                    company: old(self)@.company,
                    position: old(self)@.position,
                    status: old(self)@.status,
                    date: old(self)@.date,
                    username: user@,
                })
                &&& job.temp_id != 0
                &&& is_v4_id(job.temp_id)
                &&& final(self)@ == (TrackerView {
                    applications: old(self)@.applications.push(job@),
                    company: Seq::empty(),
                    position: Seq::empty(),
                    date: old(self)@.today,
                    ..old(self)@
                })
            }),
    {
        match &self.user {
            None => SubmitOutcome::Refused(String::from_str("You must be logged in to add a job.")),
            Some(user) => {
                let job = JobApplication {
                    id: None,
                    temp_id: new_temp_id(),
                    company: copy_text(&self.company),
                    position: copy_text(&self.position),
                    status: self.status,
                    date: copy_text(&self.date),
                    username: copy_text(user),
                };
                let posted = copy_job(&job);
                let ghost before = job_views(self.applications@);
                self.applications.push(job);
                assert(job_views(self.applications@) =~= before.push(posted@));
                self.company = String::new();
                self.position = String::new();
                self.date = copy_text(&self.today);
                SubmitOutcome::Post(posted)
            },
        }
    }

    /// The service confirmed the job posted under client id `temp_id`: the
    /// first entry under that id is replaced by the confirmed job, which keeps
    /// the client id when it carries none. Returns whether such an entry was
    /// found; when none is, nothing changes.
    pub fn confirm(&mut self, temp_id: u128, confirmed: JobApplication) -> (found: bool)
        ensures
            signed_out_empty(old(self)@) ==> signed_out_empty(final(self)@),
            found == has_temp_id(old(self)@.applications, temp_id),
            !found ==> final(self)@ == old(self)@,
            found ==> exists|i: int|
                first_with_temp_id(old(self)@.applications, temp_id, i) && final(self)@ == (TrackerView {
                    applications: old(self)@.applications.update(i, confirmed_entry(confirmed@, temp_id)),
                    ..old(self)@
                }),            found ==> exists|i: int|
                first_with_temp_id(old(self)@.applications, temp_id, i) && {
                    let e = #[trigger] final(self)@.applications[i];
                    &&& e.id == confirmed@.id
                    &&& e.company == confirmed@.company
                    &&& e.position == confirmed@.position
                    &&& e.status == confirmed@.status
                    &&& e.date == confirmed@.date
                    &&& e.username == confirmed@.username
                    &&& e.temp_id == if confirmed@.temp_id == 0 { temp_id } else { confirmed@.temp_id }
                },
    {
        let ghost before = job_views(self.applications@);
        let ghost confirmed_view = confirmed@;
        let n = self.applications.len();
        let mut i: usize = 0;
        while i < n
            invariant
                n == self.applications@.len(),
                self@ == old(self)@,
                confirmed@ == confirmed_view,
                before == job_views(self.applications@),
                i <= n,
                forall|j: int| 0 <= j < i ==> before[j].temp_id != temp_id,
            decreases n - i,
        {
            assert(before[i as int] == self.applications@[i as int]@);
            if self.applications[i].temp_id == temp_id {
                let mut entry = confirmed;
                if entry.temp_id == 0 {
                    entry.temp_id = temp_id;
                }
                let ghost entry_view = entry@;
                self.applications.set(i, entry);
                assert(job_views(self.applications@) =~= before.update(i as int, entry_view));
                assert(first_with_temp_id(before, temp_id, i as int));
                assert(entry_view == confirmed_entry(confirmed_view, temp_id));
                assert(self@ == (TrackerView { applications: before.update(i as int, entry_view), ..old(self)@ }));
                proof {
                    lemma_confirmed_entry_is_confirmed_job(confirmed_view, temp_id);
                }
                assert(self@.applications[i as int] == confirmed_entry(confirmed_view, temp_id));
                assert(first_with_temp_id(old(self)@.applications, temp_id, i as int) && self@ == (TrackerView {
                    applications: old(self)@.applications.update(i as int, confirmed_entry(confirmed_view, temp_id)),
                    ..old(self)@
                }));
                return true;
            }
            i = i + 1;
        }
        false
    }

    /// Posting the job under client id `temp_id` failed: every entry under
    /// that id is taken out of the list; the others keep their order.
    pub fn discard(&mut self, temp_id: u128)
        ensures
            signed_out_empty(old(self)@) ==> signed_out_empty(final(self)@),
            final(self)@ == (TrackerView {
                applications: without_temp_id(old(self)@.applications, temp_id),
                ..old(self)@
            }),
    {
        let mut old_list: Vec<JobApplication> = Vec::new();
        std::mem::swap(&mut old_list, &mut self.applications);
        let ghost before = job_views(old_list@);
        let ghost olds = old_list@;
        let mut kept: Vec<JobApplication> = Vec::new();
        for job in it: old_list
            invariant
                it.seq() == olds,
                before == job_views(olds),
                job_views(kept@) == without_temp_id(before.take(it.index() as int), temp_id),
        {
            let ghost k = it.index() as int;
            proof {
                reveal_with_fuel(Seq::<_>::filter, 1);
                assert(before[k] == olds[k]@);
                assert(before.take(k + 1).drop_last() =~= before.take(k));
                assert(before.take(k + 1).last() == job@);
            }
            if job.temp_id != temp_id {
                let ghost prev = job_views(kept@);
                kept.push(job);
                assert(job_views(kept@) =~= prev.push(job@));
            }
        }
        assert(before.take(before.len() as int) =~= before);
        self.applications = kept;
    }

    /// The statuses of the listed applications.
    fn statuses(&self) -> (statuses: Vec<ApplicationStatus>)
        ensures
            statuses@ == statuses_of(self@.applications),
    {
        let mut statuses: Vec<ApplicationStatus> = Vec::new();
        let n = self.applications.len();
        let mut i: usize = 0;
        while i < n
            invariant
                n == self.applications@.len(),
                i <= n,
                statuses@ == statuses_of(job_views(self.applications@)).take(i as int),
            decreases n - i,
        {
            statuses.push(self.applications[i].status);
            assert(statuses@ =~= statuses_of(job_views(self.applications@)).take(i + 1));
            i = i + 1;
        }
        assert(statuses@ =~= statuses_of(self@.applications));
        statuses
    }

    /// How many listed applications stand at each status: each status that
    /// occurs, with its count, in the order Applied, Interview, Offer,
    /// Rejected, Accepted.
    pub fn status_counts(&self) -> (entries: Vec<(ApplicationStatus, usize)>)
        ensures
            entries@.len() == tally(statuses_of(self@.applications)).len(),
            forall|i: int|
                0 <= i < entries@.len() ==> (#[trigger] entries@[i]).0 == tally(statuses_of(self@.applications))[i].0
                    && entries@[i].1 == tally(statuses_of(self@.applications))[i].1,
    {
        let statuses = self.statuses();
        count_by_status(&statuses)
    }
}

/// Dropping every entry that does not carry a client id leaves the list as it was.
proof fn lemma_filter_keeps_all(jobs: Seq<TrackedJobView>, temp_id: u128)
    requires
        !has_temp_id(jobs, temp_id),
    ensures
        without_temp_id(jobs, temp_id) == jobs,
    decreases jobs.len(),
{
    reveal_with_fuel(Seq::<_>::filter, 1);
    if jobs.len() > 0 {
        let rest = jobs.drop_last();
        assert(!has_temp_id(rest, temp_id)) by {
            if has_temp_id(rest, temp_id) {
                let i = choose|i: int| 0 <= i < rest.len() && rest[i].temp_id == temp_id;
                assert(jobs[i].temp_id == temp_id);
            }
        }
        lemma_filter_keeps_all(rest, temp_id);
        assert(jobs.last().temp_id != temp_id);
        assert(rest.push(jobs.last()) =~= jobs);
    }
}

/// A failed post undoes its submission: when the new entry's client id was
/// not in the list before, taking out the entries under that id gives back
/// the list as it was before the submission.
pub proof fn lemma_discard_undoes_submit(jobs: Seq<TrackedJobView>, job: TrackedJobView)
    requires
        !has_temp_id(jobs, job.temp_id),
    ensures
        without_temp_id(jobs.push(job), job.temp_id) == jobs,
{
    reveal_with_fuel(Seq::<_>::filter, 1);
    assert(jobs.push(job).drop_last() =~= jobs);
    lemma_filter_keeps_all(jobs, job.temp_id);
}

/// Confirming keeps the number of listed applications, and the confirmed
/// entry stays under the client id it was posted with.
pub proof fn lemma_confirm_keeps_list_shape(jobs: Seq<TrackedJobView>, temp_id: u128, i: int, confirmed: TrackedJobView)
    requires
        first_with_temp_id(jobs, temp_id, i),
        confirmed.temp_id == 0 || confirmed.temp_id == temp_id,
    ensures
        jobs.update(i, confirmed_entry(confirmed, temp_id)).len() == jobs.len(),
        jobs.update(i, confirmed_entry(confirmed, temp_id))[i].temp_id == temp_id,
{
}

} // verus!
